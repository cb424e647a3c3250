use freebuff_shell::autofill::autofill_js;

fn expected(password: &str) -> String {
    let pw = serde_json::to_string(password).unwrap();
    format!(
        r#"(function() {{
  if (window.__fbpAutofill) return;
  window.__fbpAutofill = true;
  var PW = {pw};
  var tries = 0;
  var timer = setInterval(function() {{
    tries++;
    var user = document.getElementById('login-user');
    var pass = document.getElementById('login-pass');
    if (pass) {{
      if (!pass.value) pass.value = PW;
      if (user && !user.value) user.value = 'admin';
      clearInterval(timer);
    }} else if (tries > 40) {{ clearInterval(timer); }}
  }}, 500);
}})();"#
    )
}

#[test]
fn script_embeds_password_as_string_literal() {
    for p in ["IT3Z9abc", "", "quote\"back\\slash", "</script>\n\u{0}", "密码"] {
        assert_eq!(autofill_js(p), expected(p), "{:?}", p);
    }
}

#[test]
fn password_is_quoted_not_pasted() {
    let js = autofill_js("a\"b");
    assert!(js.contains("var PW = \"a\\\"b\";"));
    assert!(!js.contains("var PW = a\"b;"));
}
