use vstd::prelude::*;

verus! {

/// How many lines of the server's standard error the shell keeps for a
/// failure report.
pub const TAIL_LINES: usize = 40;

/// The last `TAIL_LINES` lines of `history` (all of them when there are fewer).
pub open spec fn last_lines(history: Seq<Seq<char>>) -> Seq<Seq<char>> {
    if history.len() > TAIL_LINES {
        history.skip(history.len() - TAIL_LINES)
    } else {
        history
    }
}

/// The tail that feeding the lines of `history`, one by one and in order, into
/// an empty tail leaves.
pub open spec fn tail_after(history: Seq<Seq<char>>) -> Seq<Seq<char>>
    decreases history.len(),
{
    if history.len() == 0 {
        Seq::empty()
    } else {
        last_lines(tail_after(history.drop_last()).push(history.last()))
    }
}

/// `lines` joined with `\n` between them, as `[String]::join("\n")` does.
pub open spec fn join_lines(lines: Seq<Seq<char>>) -> Seq<char>
    decreases lines.len(),
{
    if lines.len() == 0 {
        Seq::empty()
    } else if lines.len() == 1 {
        lines[0]
    } else {
        join_lines(lines.drop_last()) + seq!['\n'] + lines.last()
    }
}

/// The last lines that the server wrote to its standard error, at most
/// `TAIL_LINES` of them, oldest first.
pub struct StderrTail {
    lines: Vec<String>,
}

impl View for StderrTail {
    type V = Seq<Seq<char>>;

    closed spec fn view(&self) -> Seq<Seq<char>> {
        self.lines@.map_values(|l: String| l@)
    }
}

impl StderrTail {
    #[verifier::type_invariant]
    spec fn bounded(self) -> bool {
        self.lines.len() <= TAIL_LINES
    }

    /// An empty tail.
    pub fn new() -> (t: Self)
        ensures
            t@ == Seq::<Seq<char>>::empty(),
    {
        let t = StderrTail { lines: Vec::new() };
        assert(t@ =~= Seq::<Seq<char>>::empty());
        t
    }

    /// Keeps `line` as the newest line, dropping the oldest one when the tail
    /// is full.
    pub fn push(&mut self, line: String)
        ensures
            final(self)@ == last_lines(old(self)@.push(line@)),
            final(self)@.len() <= TAIL_LINES,
    {
        proof {
            use_type_invariant(&*self);
        }
        let ghost before = self@;
        let ghost text = line@;
        let mut lines: Vec<String> = Vec::new();
        std::mem::swap(&mut lines, &mut self.lines);
        if lines.len() >= TAIL_LINES {
            lines.remove(0);
        }
        lines.push(line);
        self.lines = lines;
        proof {
            let after = self@;
            if before.len() >= TAIL_LINES {
                assert(after =~= last_lines(before.push(text)));
            } else {
                assert(after =~= before.push(text));
            }
        }
    }

    /// How many lines the tail holds.
    pub fn len(&self) -> (n: usize)
        ensures
            n == self@.len(),
    {
        self.lines.len()
    }

    /// The kept lines joined with `\n`.
    pub fn joined(&self) -> (s: String)
        ensures
            s@ == join_lines(self@),
    {
        let mut out = String::new();
        let mut i: usize = 0;
        while i < self.lines.len()
            invariant
                i <= self.lines.len(),
                out@ == join_lines(self@.take(i as int)),
            decreases self.lines.len() - i,
        {
            if i > 0 {
                out.append("\n");
            }
            out.append(self.lines[i].as_str());
            proof {
                let taken = self@.take(i + 1);
                assert(taken.drop_last() =~= self@.take(i as int));
                reveal_strlit("\n");
            }
            i += 1;
        }
        assert(self@.take(i as int) =~= self@);
        out
    }
}

/// Feeding lines one by one into the tail keeps exactly the last
/// `TAIL_LINES` lines that were fed, whatever their number.
pub proof fn law_tail_keeps_last_lines(history: Seq<Seq<char>>)
    ensures
        tail_after(history) == last_lines(history),
        tail_after(history).len() <= TAIL_LINES,
    decreases history.len(),
{
    if history.len() > 0 {
        law_tail_keeps_last_lines(history.drop_last());
        let before = history.drop_last();
        assert(before.push(history.last()) =~= history);
        if before.len() >= TAIL_LINES {
            assert(last_lines(last_lines(before).push(history.last())) =~= last_lines(history));
        } else {
            assert(last_lines(before).push(history.last()) =~= history);
        }
    }
}

} // verus!
