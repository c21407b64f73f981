//! What the window shows at the end of the wait: the worker's address when it
//! is ready, or a self-contained error page with the facts needed for support.

use vstd::prelude::*;
use crate::text::{decimal, push_decimal, push_str};

verus! {

/// The address of the worker's page.
pub open spec fn url_of(port: nat) -> Seq<char> {
    "http://127.0.0.1:"@ + decimal(port)
}

/// The address of the worker's page on `port`.
pub fn ready_url(port: u16) -> (r: String)
    ensures
        r@ == url_of(port as nat),
{
    let mut url = String::new();
    push_str(&mut url, "http://127.0.0.1:");
    push_decimal(&mut url, port as u64);
    url
}

/// The facts recorded when the worker never became reachable.
pub struct DiagnosticContext {
    pub port: u16,
    pub timeout_secs: u64,
    pub os: String,
    pub arch: String,
}

/// The diagnostic lines: port, timeout and platform.
pub open spec fn diagnostic_of(port: nat, timeout_secs: nat, os: Seq<char>, arch: Seq<char>) -> Seq<char> {
    "Port : "@ + decimal(port) + "\nTimeout : "@ + decimal(timeout_secs) + " secondes\nSystème : "@
        + os + " "@ + arch
}

/// The part of the error page before the diagnostic lines.
pub open spec fn page_head() -> Seq<char> {
    PAGE_HEAD@
}

/// The part of the error page after the diagnostic lines.
pub open spec fn page_tail() -> Seq<char> {
    PAGE_TAIL@
}

/// The error page around the diagnostic lines `diag`.
pub open spec fn page_of(diag: Seq<char>) -> Seq<char> {
    page_head() + diag + page_tail()
}

/// A script that replaces the displayed document by the one whose JSON
/// string literal is `json`.
pub open spec fn write_script_of(json: Seq<char>) -> Seq<char> {
    "document.open();document.write("@ + json + ");document.close();"@
}

/// The JSON string literal of the text `s`: quoted, with the characters that
/// JSON does not take as they are escaped.
pub uninterp spec fn json_string_literal(s: Seq<char>) -> Seq<char>;

/// The JSON literal written where the page cannot be encoded.
pub const FALLBACK_JSON: &'static str = "\"Erreur de démarrage\"";

pub const PAGE_HEAD: &'static str = r#"<!DOCTYPE html>
<html lang="fr">
<head>
  <meta charset="UTF-8">
  <meta name="viewport" content="width=device-width, initial-scale=1.0">
  <title>Erreur — Tablerreur</title>
  <style>
    *,*::before,*::after{box-sizing:border-box;margin:0;padding:0}
    html,body{height:100%;background:#fff8f8;font-family:-apple-system,BlinkMacSystemFont,"Segoe UI",system-ui,sans-serif;-webkit-font-smoothing:antialiased}
    body{display:flex;flex-direction:column;justify-content:center;align-items:center;min-height:100vh;padding:2rem}
    .card{max-width:560px;width:100%}
    h1{font-size:1.5rem;font-weight:700;color:#dc2626;margin-bottom:1rem}
    p{color:#475569;line-height:1.6;margin-bottom:1rem}
    pre{background:#f1f5f9;border:1px solid #e2e8f0;border-radius:6px;padding:1rem;font-size:.85rem;white-space:pre-wrap;user-select:all;color:#334155;margin-bottom:1rem}
    button{background:#2563eb;color:#fff;border:none;border-radius:6px;padding:.5rem 1rem;font-size:.875rem;cursor:pointer;font-family:inherit}
    button:hover{background:#1d4ed8}
    .note{margin-top:1rem;font-size:.8rem;color:#94a3b8}
  </style>
</head>
<body>
  <div class="card">
    <h1>Erreur de démarrage</h1>
    <p>Le serveur Tablerreur n'a pas pu démarrer dans les délais.</p>
    <pre id="diag">"#;

pub const PAGE_TAIL: &'static str = r#"</pre>
    <button onclick="navigator.clipboard.writeText(document.getElementById('diag').textContent).catch(function(){})">
      Copier le diagnostic
    </button>
    <p class="note">Contactez le support avec ces informations.</p>
  </div>
</body>
</html>"#;

#[verifier::external_type_specification]
#[verifier::external_body]
pub struct ExJsonError(serde_json::Error);

/// Relies on `serde_json::to_string`: a `String` is written as one JSON
/// string literal, which depends on the text alone. Writing text into the
/// in-memory buffer cannot fail, so the result is always `Ok`.
#[verifier::external_body]
fn encode_json_string(s: &String) -> (r: Result<String, serde_json::Error>)
    ensures
        r is Ok,
        r matches Ok(j) ==> j@ == json_string_literal(s@),
{
    serde_json::to_string(s)
}

impl DiagnosticContext {
    /// The diagnostic lines of this context.
    pub fn diagnostic_text(&self) -> (r: String)
        ensures
            r@ == diagnostic_of(self.port as nat, self.timeout_secs as nat, self.os@, self.arch@),
    {
        let mut t = String::new();
        push_str(&mut t, "Port : ");
        push_decimal(&mut t, self.port as u64);
        push_str(&mut t, "\nTimeout : ");
        push_decimal(&mut t, self.timeout_secs);
        push_str(&mut t, " secondes\nSystème : ");
        push_str(&mut t, self.os.as_str());
        push_str(&mut t, " ");
        push_str(&mut t, self.arch.as_str());
        t
    }

    /// The error page of this context.
    pub fn failure_page(&self) -> (r: String)
        ensures
            r@ == page_of(diagnostic_of(self.port as nat, self.timeout_secs as nat, self.os@, self.arch@)),
    {
        let diag = self.diagnostic_text();
        error_page(diag.as_str())
    }
}

/// The error page around the diagnostic lines `diag`.
pub fn error_page(diag: &str) -> (r: String)
    ensures
        r@ == page_of(diag@),
{
    let mut page = String::new();
    push_str(&mut page, PAGE_HEAD);
    push_str(&mut page, diag);
    push_str(&mut page, PAGE_TAIL);
    page
}

/// The script that shows a document, given its JSON string literal, or
/// the fallback literal where there is none.
pub fn script_for_literal(json: Option<&str>) -> (r: String)
    ensures
        json matches Some(j) ==> r@ == write_script_of(j@),
        json is None ==> r@ == write_script_of(FALLBACK_JSON@),
{
    let mut js = String::new();
    push_str(&mut js, "document.open();document.write(");
    match json {
        Some(j) => push_str(&mut js, j),
        None => push_str(&mut js, FALLBACK_JSON),
    }
    push_str(&mut js, ");document.close();");
    js
}

/// The script that replaces the displayed document by `html`, passed as its
/// JSON string literal.
pub fn page_script(html: &String) -> (r: String)
    ensures
        r@ == write_script_of(json_string_literal(html@)),
{
    match encode_json_string(html) {
        Ok(j) => script_for_literal(Some(j.as_str())),
        Err(_) => script_for_literal(None),
    }
}

} // verus!
