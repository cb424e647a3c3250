use vstd::prelude::*;

use crate::json::{json_string, json_string_literal};

verus! {

/// The script that the console page gets once a remembered password has been
/// confirmed, with `password_literal` (a JavaScript string literal) as the
/// password. It runs once per page, waits for the login form that the console
/// renders late, fills only empty fields and gives up after 40 tries.
pub open spec fn autofill_script(password_literal: Seq<char>) -> Seq<char> {
    "(function() {\n  if (window.__fbpAutofill) return;\n  window.__fbpAutofill = true;\n  var PW = "@
        + password_literal
        + ";\n  var tries = 0;\n  var timer = setInterval(function() {\n    tries++;\n    var user = document.getElementById('login-user');\n    var pass = document.getElementById('login-pass');\n    if (pass) {\n      if (!pass.value) pass.value = PW;\n      if (user && !user.value) user.value = 'admin';\n      clearInterval(timer);\n    } else if (tries > 40) { clearInterval(timer); }\n  }, 500);\n})();"@
}

/// The autofill script for `password`, which stands in it as a JSON string
/// literal.
pub fn autofill_js(password: &str) -> (js: String)
    ensures
        js@ == autofill_script(json_string_literal(password@)),
{
    let literal = match json_string(password) {
        Ok(l) => l,
        Err(_) => "\"\"".to_string(),
    };
    "(function() {\n  if (window.__fbpAutofill) return;\n  window.__fbpAutofill = true;\n  var PW = ".to_string().concat(
        literal.as_str(),
    ).concat(
        ";\n  var tries = 0;\n  var timer = setInterval(function() {\n    tries++;\n    var user = document.getElementById('login-user');\n    var pass = document.getElementById('login-pass');\n    if (pass) {\n      if (!pass.value) pass.value = PW;\n      if (user && !user.value) user.value = 'admin';\n      clearInterval(timer);\n    } else if (tries > 40) { clearInterval(timer); }\n  }, 500);\n})();",
    )
}

} // verus!
