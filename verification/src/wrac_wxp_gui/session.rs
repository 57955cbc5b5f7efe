//! What a GUI shows, and the page that stands in for a frontend that cannot be reached.

use vstd::prelude::*;

use crate::text::{
    chars_of, decimal, decimal_text, is_alphanumeric, is_ascii_alphanumeric, join, joined,
    lemma_parts_occur, occurs_in, split, split_at_each, texts,
};
use crate::wrac_clap_adapter::api::GuiSize;
use crate::wrac_wxp_gui::layout::{clamp_size_with_limits, nearest_size, GuiSizeLimits};

verus! {

/// What a GUI loads.
#[derive(Debug, Clone, Copy)]
pub enum WxpFrontendSource {
    Html { html: &'static str },
    Url { url: &'static str },
    Zip { scheme: &'static str, url: &'static str, bytes: &'static [u8] },
}

/// Why a frontend could not be reached.
#[derive(Debug)]
pub struct UrlProbeError {
    /// The endpoint to look at first.
    pub target: String,
    /// What the system said.
    pub error: String,
}

// Escaping

/// How HTML writes one character.
pub open spec fn escaped_html_char(c: char) -> Seq<char> {
    if c == '&' {
        "&amp;"@
    } else if c == '<' {
        "&lt;"@
    } else if c == '>' {
        "&gt;"@
    } else if c == '"' {
        "&quot;"@
    } else if c == '\'' {
        "&#39;"@
    } else {
        seq![c]
    }
}

/// `s` as HTML writes it.
pub open spec fn escaped_html(s: Seq<char>) -> Seq<char>
    decreases s.len(),
{
    if s.len() == 0 {
        Seq::empty()
    } else {
        escaped_html(s.drop_last()) + escaped_html_char(s.last())
    }
}

/// `value` as HTML writes it.
pub fn escape_html(value: &str) -> (escaped: String)
    ensures
        escaped@ == escaped_html(value@),
{
    let chars = chars_of(value);
    let mut escaped: String = String::new();
    let mut i: usize = 0;
    while i < chars.len()
        invariant
            i <= chars@.len(),
            escaped@ == escaped_html(chars@.take(i as int)),
        decreases chars@.len() - i,
    {
        let c = chars[i];
        assert(chars@.take(i + 1).drop_last() =~= chars@.take(i as int));
        let ghost before = escaped@;
        if c == '&' {
            escaped.append("&amp;");
        } else if c == '<' {
            escaped.append("&lt;");
        } else if c == '>' {
            escaped.append("&gt;");
        } else if c == '"' {
            escaped.append("&quot;");
        } else if c == '\'' {
            escaped.append("&#39;");
        } else {
            escaped.push(c);
        }
        assert(escaped@ =~= before + escaped_html_char(c));
        i += 1;
    }
    assert(chars@.take(i as int) =~= value@);
    escaped
}

/// How a script string writes one character.
pub open spec fn escaped_js_char(c: char) -> Seq<char> {
    if c == '\\' {
        "\\\\"@
    } else if c == '"' {
        "\\\""@
    } else if c == '&' {
        "\\x26"@
    } else if c == '<' {
        "\\x3C"@
    } else if c == '>' {
        "\\x3E"@
    } else if c == '\n' {
        "\\n"@
    } else if c == '\r' {
        "\\r"@
    } else if c == '\t' {
        "\\t"@
    } else if c == '\u{2028}' {
        "\\u2028"@
    } else if c == '\u{2029}' {
        "\\u2029"@
    } else {
        seq![c]
    }
}

/// `s` as a script string writes it.
pub open spec fn escaped_js(s: Seq<char>) -> Seq<char>
    decreases s.len(),
{
    if s.len() == 0 {
        Seq::empty()
    } else {
        escaped_js(s.drop_last()) + escaped_js_char(s.last())
    }
}

/// `value` as a script string writes it.
pub fn escape_js_string(value: &str) -> (escaped: String)
    ensures
        escaped@ == escaped_js(value@),
{
    let chars = chars_of(value);
    let mut escaped: String = String::new();
    let mut i: usize = 0;
    while i < chars.len()
        invariant
            i <= chars@.len(),
            escaped@ == escaped_js(chars@.take(i as int)),
        decreases chars@.len() - i,
    {
        let c = chars[i];
        assert(chars@.take(i + 1).drop_last() =~= chars@.take(i as int));
        let ghost before = escaped@;
        if c == '\\' {
            escaped.append("\\\\");
        } else if c == '"' {
            escaped.append("\\\"");
        } else if c == '&' {
            escaped.append("\\x26");
        } else if c == '<' {
            escaped.append("\\x3C");
        } else if c == '>' {
            escaped.append("\\x3E");
        } else if c == '\n' {
            escaped.append("\\n");
        } else if c == '\r' {
            escaped.append("\\r");
        } else if c == '\t' {
            escaped.append("\\t");
        } else if c == '\u{2028}' {
            escaped.append("\\u2028");
        } else if c == '\u{2029}' {
            escaped.append("\\u2029");
        } else {
            escaped.push(c);
        }
        assert(escaped@ =~= before + escaped_js_char(c));
        i += 1;
    }
    assert(chars@.take(i as int) =~= value@);
    escaped
}

/// Escaped HTML holds none of the characters that end a text or an attribute value.
pub proof fn escaped_html_ends_no_text(s: Seq<char>, i: int)
    requires
        0 <= i < escaped_html(s).len(),
    ensures
        escaped_html(s)[i] != '<',
        escaped_html(s)[i] != '>',
        escaped_html(s)[i] != '"',
        escaped_html(s)[i] != '\'',
    decreases s.len(),
{
    reveal_strlit("&amp;");
    reveal_strlit("&lt;");
    reveal_strlit("&gt;");
    reveal_strlit("&quot;");
    reveal_strlit("&#39;");
    if s.len() > 0 {
        let before = escaped_html(s.drop_last());
        if i < before.len() {
            escaped_html_ends_no_text(s.drop_last(), i);
        } else {
            assert(escaped_html(s)[i] == escaped_html_char(s.last())[i - before.len()]);
        }
    }
}

/// An escaped script string holds no line break and none of the characters by which a page
/// could leave its script.
pub proof fn escaped_js_stays_in_its_script(s: Seq<char>, i: int)
    requires
        0 <= i < escaped_js(s).len(),
    ensures
        escaped_js(s)[i] != '<',
        escaped_js(s)[i] != '>',
        escaped_js(s)[i] != '&',
        escaped_js(s)[i] != '\n',
        escaped_js(s)[i] != '\r',
        escaped_js(s)[i] != '\u{2028}',
        escaped_js(s)[i] != '\u{2029}',
    decreases s.len(),
{
    reveal_strlit("\\\\");
    reveal_strlit("\\\"");
    reveal_strlit("\\x26");
    reveal_strlit("\\x3C");
    reveal_strlit("\\x3E");
    reveal_strlit("\\n");
    reveal_strlit("\\r");
    reveal_strlit("\\t");
    reveal_strlit("\\u2028");
    reveal_strlit("\\u2029");
    if s.len() > 0 {
        let before = escaped_js(s.drop_last());
        if i < before.len() {
            escaped_js_stays_in_its_script(s.drop_last(), i);
        } else {
            assert(escaped_js(s)[i] == escaped_js_char(s.last())[i - before.len()]);
        }
    }
}

// Reading what was escaped

/// Whether a text begins with another.
pub open spec fn begins_with(s: Seq<char>, start: Seq<char>) -> bool {
    start.len() <= s.len() && s.take(start.len() as int) == start
}

/// The character that stands at the front of a text in HTML, and how much of the text it takes.
pub open spec fn html_front(s: Seq<char>) -> (char, nat) {
    if begins_with(s, "&amp;"@) {
        ('&', 5)
    } else if begins_with(s, "&lt;"@) {
        ('<', 4)
    } else if begins_with(s, "&gt;"@) {
        ('>', 4)
    } else if begins_with(s, "&quot;"@) {
        ('"', 6)
    } else if begins_with(s, "&#39;"@) {
        ('\'', 5)
    } else {
        (s[0], 1)
    }
}

/// The text that a page shows for HTML without markup, as far as it was written by `escape_html`.
pub open spec fn read_html(s: Seq<char>) -> Seq<char>
    decreases s.len(),
{
    if s.len() == 0 {
        Seq::empty()
    } else {
        let (c, n) = html_front(s);
        if n <= s.len() {
            seq![c] + read_html(s.skip(n as int))
        } else {
            s
        }
    }
}

/// The character that stands at the front of a script string, and how much of the string it
/// takes.
pub open spec fn js_front(s: Seq<char>) -> (char, nat) {
    if begins_with(s, "\\\\"@) {
        ('\\', 2)
    } else if begins_with(s, "\\\""@) {
        ('"', 2)
    } else if begins_with(s, "\\x26"@) {
        ('&', 4)
    } else if begins_with(s, "\\x3C"@) {
        ('<', 4)
    } else if begins_with(s, "\\x3E"@) {
        ('>', 4)
    } else if begins_with(s, "\\n"@) {
        ('\n', 2)
    } else if begins_with(s, "\\r"@) {
        ('\r', 2)
    } else if begins_with(s, "\\t"@) {
        ('\t', 2)
    } else if begins_with(s, "\\u2028"@) {
        ('\u{2028}', 6)
    } else if begins_with(s, "\\u2029"@) {
        ('\u{2029}', 6)
    } else {
        (s[0], 1)
    }
}

/// The text that a script has for a string, as far as it was written by `escape_js_string`.
pub open spec fn read_js(s: Seq<char>) -> Seq<char>
    decreases s.len(),
{
    if s.len() == 0 {
        Seq::empty()
    } else {
        let (c, n) = js_front(s);
        if n <= s.len() {
            seq![c] + read_js(s.skip(n as int))
        } else {
            s
        }
    }
}

/// A text that was escaped for HTML is read back as itself, whatever it holds.
pub proof fn escaped_html_is_read_back(s: Seq<char>)
    ensures
        read_html(escaped_html(s)) == s,
    decreases s.len(),
{
    if s.len() > 0 {
        let rest = s.skip(1);
        lemma_html_from_the_front(s);
        lemma_html_front(s[0], escaped_html(rest));
        escaped_html_is_read_back(rest);
        let first = escaped_html_char(s[0]);
        assert((first + escaped_html(rest)).skip(first.len() as int) =~= escaped_html(rest));
        assert(seq![s[0]] + rest =~= s);
    }
}

proof fn lemma_html_from_the_front(s: Seq<char>)
    requires
        s.len() > 0,
    ensures
        escaped_html(s) == escaped_html_char(s[0]) + escaped_html(s.skip(1)),
    decreases s.len(),
{
    let rest = s.skip(1);
    if s.len() == 1 {
        assert(escaped_html(s.drop_last()) =~= Seq::<char>::empty());
        assert(rest =~= Seq::<char>::empty());
        assert(escaped_html(s) =~= escaped_html_char(s[0]) + escaped_html(rest));
    } else {
        lemma_html_from_the_front(s.drop_last());
        assert(s.drop_last().skip(1) =~= rest.drop_last());
        assert(escaped_html(s) =~= escaped_html_char(s[0]) + escaped_html(rest));
    }
}

proof fn lemma_html_front(c: char, rest: Seq<char>)
    ensures
        ({
            let first = escaped_html_char(c);
            html_front(first + rest) == (c, first.len()) && first.len() > 0
        }),
{
    reveal_strlit("&amp;");
    reveal_strlit("&lt;");
    reveal_strlit("&gt;");
    reveal_strlit("&quot;");
    reveal_strlit("&#39;");
    let first = escaped_html_char(c);
    let s = first + rest;
    assert(s.take(first.len() as int) =~= first);
    if begins_with(s, "&amp;"@) {
        lemma_begins_with(s, "&amp;"@, 0);
        lemma_begins_with(s, "&amp;"@, 1);
    }
    if begins_with(s, "&lt;"@) {
        lemma_begins_with(s, "&lt;"@, 0);
        lemma_begins_with(s, "&lt;"@, 1);
    }
    if begins_with(s, "&gt;"@) {
        lemma_begins_with(s, "&gt;"@, 0);
        lemma_begins_with(s, "&gt;"@, 1);
    }
    if begins_with(s, "&quot;"@) {
        lemma_begins_with(s, "&quot;"@, 0);
        lemma_begins_with(s, "&quot;"@, 1);
    }
    if begins_with(s, "&#39;"@) {
        lemma_begins_with(s, "&#39;"@, 0);
        lemma_begins_with(s, "&#39;"@, 1);
    }
    assert(s[0] == first[0]);
    assert(first.len() > 1 ==> s[1] == first[1]);
}

/// A text that was escaped for a script string is read back as itself, whatever it holds: tabs,
/// line breaks, quotes and backslashes among it.
pub proof fn escaped_js_is_read_back(s: Seq<char>)
    ensures
        read_js(escaped_js(s)) == s,
    decreases s.len(),
{
    if s.len() > 0 {
        let rest = s.skip(1);
        lemma_js_from_the_front(s);
        lemma_js_front(s[0], escaped_js(rest));
        escaped_js_is_read_back(rest);
        let first = escaped_js_char(s[0]);
        assert((first + escaped_js(rest)).skip(first.len() as int) =~= escaped_js(rest));
        assert(seq![s[0]] + rest =~= s);
    }
}

proof fn lemma_js_from_the_front(s: Seq<char>)
    requires
        s.len() > 0,
    ensures
        escaped_js(s) == escaped_js_char(s[0]) + escaped_js(s.skip(1)),
    decreases s.len(),
{
    let rest = s.skip(1);
    if s.len() == 1 {
        assert(escaped_js(s.drop_last()) =~= Seq::<char>::empty());
        assert(rest =~= Seq::<char>::empty());
        assert(escaped_js(s) =~= escaped_js_char(s[0]) + escaped_js(rest));
    } else {
        lemma_js_from_the_front(s.drop_last());
        assert(s.drop_last().skip(1) =~= rest.drop_last());
        assert(escaped_js(s) =~= escaped_js_char(s[0]) + escaped_js(rest));
    }
}

/// A text begins with another only where it has its characters.
proof fn lemma_begins_with(s: Seq<char>, start: Seq<char>, i: int)
    requires
        begins_with(s, start),
        0 <= i < start.len(),
    ensures
        s[i] == start[i],
{
    assert(s.take(start.len() as int)[i] == s[i]);
}

proof fn lemma_js_front(c: char, rest: Seq<char>)
    ensures
        ({
            let first = escaped_js_char(c);
            js_front(first + rest) == (c, first.len()) && first.len() > 0
        }),
{
    reveal_strlit("\\\\");
    reveal_strlit("\\\"");
    reveal_strlit("\\x26");
    reveal_strlit("\\x3C");
    reveal_strlit("\\x3E");
    reveal_strlit("\\n");
    reveal_strlit("\\r");
    reveal_strlit("\\t");
    reveal_strlit("\\u2028");
    reveal_strlit("\\u2029");
    let first = escaped_js_char(c);
    let s = first + rest;
    assert(s.take(first.len() as int) =~= first);
    assert forall|i: int| 0 <= i < first.len() implies s[i] == first[i] by {
    }
    if begins_with(s, "\\\\"@) {
        lemma_begins_with(s, "\\\\"@, 0);
        lemma_begins_with(s, "\\\\"@, 1);
    }
    if begins_with(s, "\\\""@) {
        lemma_begins_with(s, "\\\""@, 0);
        lemma_begins_with(s, "\\\""@, 1);
    }
    if begins_with(s, "\\x26"@) {
        lemma_begins_with(s, "\\x26"@, 0);
        lemma_begins_with(s, "\\x26"@, 1);
        lemma_begins_with(s, "\\x26"@, 2);
        lemma_begins_with(s, "\\x26"@, 3);
    }
    if begins_with(s, "\\x3C"@) {
        lemma_begins_with(s, "\\x3C"@, 0);
        lemma_begins_with(s, "\\x3C"@, 1);
        lemma_begins_with(s, "\\x3C"@, 2);
        lemma_begins_with(s, "\\x3C"@, 3);
    }
    if begins_with(s, "\\x3E"@) {
        lemma_begins_with(s, "\\x3E"@, 0);
        lemma_begins_with(s, "\\x3E"@, 1);
        lemma_begins_with(s, "\\x3E"@, 2);
        lemma_begins_with(s, "\\x3E"@, 3);
    }
    if begins_with(s, "\\n"@) {
        lemma_begins_with(s, "\\n"@, 0);
        lemma_begins_with(s, "\\n"@, 1);
    }
    if begins_with(s, "\\r"@) {
        lemma_begins_with(s, "\\r"@, 0);
        lemma_begins_with(s, "\\r"@, 1);
    }
    if begins_with(s, "\\t"@) {
        lemma_begins_with(s, "\\t"@, 0);
        lemma_begins_with(s, "\\t"@, 1);
    }
    if begins_with(s, "\\u2028"@) {
        lemma_begins_with(s, "\\u2028"@, 0);
        lemma_begins_with(s, "\\u2028"@, 1);
        lemma_begins_with(s, "\\u2028"@, 5);
    }
    if begins_with(s, "\\u2029"@) {
        lemma_begins_with(s, "\\u2029"@, 0);
        lemma_begins_with(s, "\\u2029"@, 1);
        lemma_begins_with(s, "\\u2029"@, 5);
    }
}

// The page that reports a frontend that cannot be reached

/// The page up to the URL.
pub const PAGE_HEAD: &'static str = "<!doctype html>
<html lang=\"en\">
  <head>
    <meta charset=\"utf-8\">
    <meta name=\"viewport\" content=\"width=device-width, initial-scale=1\">
    <title>Failed to load URL</title>
    <style>
      :root {
        color-scheme: dark;
        font-family: -apple-system, BlinkMacSystemFont, \"Segoe UI\", sans-serif;
        background: #111;
        color: #eee;
      }
      body {
        margin: 0;
        min-height: 100vh;
        display: grid;
        place-items: center;
        background: #111;
      }
      main {
        box-sizing: border-box;
        width: min(680px, 100vw);
        padding: 24px;
      }
      h1 {
        margin: 0 0 18px;
        font-size: 20px;
        font-weight: 650;
      }
      dl {
        display: grid;
        gap: 14px;
        margin: 0;
      }
      dt {
        margin-bottom: 5px;
        color: #aaa;
        font-size: 12px;
        font-weight: 700;
        text-transform: uppercase;
      }
      dd {
        margin: 0;
      }
      code, pre {
        font-family: ui-monospace, SFMono-Regular, Menlo, Consolas, monospace;
        font-size: 12px;
      }
      code {
        overflow-wrap: anywhere;
      }
      pre {
        white-space: pre-wrap;
        overflow-wrap: anywhere;
        margin: 0;
        padding: 10px;
        border: 1px solid #3a3a3a;
        background: #181818;
      }
      button {
        margin-top: 20px;
        height: 32px;
        padding: 0 14px;
        border: 1px solid #666;
        border-radius: 4px;
        background: #2b2b2b;
        color: #fff;
        font: inherit;
        cursor: pointer;
      }
      button:hover {
        background: #383838;
      }
      button:disabled {
        cursor: default;
        opacity: 0.65;
      }
    </style>
  </head>
  <body>
    <main>
      <h1>Failed to load URL</h1>
      <dl>
        <div>
          <dt>URL</dt>
          <dd><code>";

/// The page from the URL to the probe target.
pub const PAGE_AFTER_URL: &'static str = "</code></dd>
        </div>
        <div>
          <dt>Probe target</dt>
          <dd><code>";

/// The page from the probe target to the timeout.
pub const PAGE_AFTER_TARGET: &'static str = "</code></dd>
        </div>
        <div>
          <dt>Timeout</dt>
          <dd><code>";

/// The page from the timeout to the error.
pub const PAGE_AFTER_TIMEOUT: &'static str = " ms</code></dd>
        </div>
        <div>
          <dt>Error</dt>
          <dd><pre id=\"error\">";

/// The page from the error to the URL in the script.
pub const PAGE_AFTER_ERROR: &'static str = "</pre></dd>
        </div>
      </dl>
      <button type=\"button\" id=\"retry\">Retry</button>
    </main>
    <script>
      const url = \"";

/// The page from the URL in the script to the timeout in the script.
pub const PAGE_AFTER_SCRIPT_URL: &'static str = "\";
      const timeoutMs = ";

/// The page from the timeout in the script on.
pub const PAGE_TAIL: &'static str = ";
      const retry = document.getElementById(\"retry\");
      const error = document.getElementById(\"error\");

      retry.addEventListener(\"click\", async () => {
        retry.disabled = true;
        retry.textContent = \"Retrying...\";

        const controller = new AbortController();
        const timer = setTimeout(() => controller.abort(), timeoutMs);
        try {
          await fetch(url, {
            method: \"GET\",
            mode: \"no-cors\",
            cache: \"no-store\",
            signal: controller.signal,
          });
          window.location.replace(url);
        } catch (err) {
          const message = err && err.message ? err.message : String(err);
          error.textContent = `Retry failed: ${message}`;
          retry.disabled = false;
          retry.textContent = \"Retry\";
        } finally {
          clearTimeout(timer);
        }
      });
    </script>
  </body>
</html>";

/// The page for `url`, which could not be reached.
pub open spec fn probe_error_page(
    url: Seq<char>,
    target: Seq<char>,
    error: Seq<char>,
    timeout_ms: nat,
) -> Seq<char> {
    PAGE_HEAD@ + escaped_html(url)
        + PAGE_AFTER_URL@ + escaped_html(target)
        + PAGE_AFTER_TARGET@ + decimal(timeout_ms)
        + PAGE_AFTER_TIMEOUT@ + escaped_html(error)
        + PAGE_AFTER_ERROR@ + escaped_js(url)
        + PAGE_AFTER_SCRIPT_URL@ + decimal(timeout_ms)
        + PAGE_TAIL@
}

/// The page that is shown in place of a frontend that cannot be reached. It names the URL, the
/// endpoint and what the system said, and offers to try again.
pub fn url_probe_error_html(url: &str, error: &UrlProbeError, timeout_ms: u64) -> (html: String)
    ensures
        html@ == probe_error_page(url@, error.target@, error.error@, timeout_ms as nat),
{
    let timeout = decimal_text(timeout_ms);
    let mut page = PAGE_HEAD.to_owned();
    page.append(escape_html(url).as_str());
    page.append(PAGE_AFTER_URL);
    page.append(escape_html(error.target.as_str()).as_str());
    page.append(PAGE_AFTER_TARGET);
    page.append(timeout.as_str());
    page.append(PAGE_AFTER_TIMEOUT);
    page.append(escape_html(error.error.as_str()).as_str());
    page.append(PAGE_AFTER_ERROR);
    page.append(escape_js_string(url).as_str());
    page.append(PAGE_AFTER_SCRIPT_URL);
    page.append(timeout.as_str());
    page.append(PAGE_TAIL);
    page
}

// Where a GUI keeps its data

/// `c` where a directory name can hold it everywhere, and an underscore otherwise.
pub open spec fn directory_char(c: char) -> char {
    if is_alphanumeric(c) || c == '.' || c == '-' {
        c
    } else {
        '_'
    }
}

/// A directory name made of a plugin id, character by character.
pub fn sanitize_plugin_data_dir(plugin_id: &str) -> (name: String)
    ensures
        name@ == plugin_id@.map_values(|c: char| directory_char(c)),
{
    let chars = chars_of(plugin_id);
    let ghost expected = plugin_id@.map_values(|c: char| directory_char(c));
    let mut name: String = String::new();
    let mut i: usize = 0;
    while i < chars.len()
        invariant
            i <= chars@.len(),
            chars@ == plugin_id@,
            expected == plugin_id@.map_values(|c: char| directory_char(c)),
            name@ == expected.take(i as int),
        decreases chars@.len() - i,
    {
        let c = chars[i];
        if is_ascii_alphanumeric(c) || c == '.' || c == '-' {
            name.push(c);
        } else {
            name.push('_');
        }
        assert(expected.take(i + 1) =~= expected.take(i as int).push(directory_char(c)));
        i += 1;
    }
    assert(expected.take(i as int) =~= expected);
    name
}

/// Who makes a product, by the parts of a reverse domain name.
#[derive(Debug)]
pub struct ProjectName {
    pub qualifier: String,
    pub organization: String,
    pub application: String,
}

/// The application part of a plugin id: its parts from the third on, joined by hyphens.
pub open spec fn application_part(plugin_id: Seq<char>) -> Seq<char> {
    joined(split_at_each(plugin_id, '.').skip(2), "-"@)
}

/// The qualifier, organization and application that a plugin id names, where it names all
/// three.
pub fn project_name_from_plugin_id(plugin_id: &str) -> (name: Option<ProjectName>)
    ensures
        ({
            let parts = split_at_each(plugin_id@, '.');
            match name {
                Some(name) => {
                    &&& parts.len() > 2
                    &&& application_part(plugin_id@).len() > 0
                    &&& name.qualifier@ == parts[0]
                    &&& name.organization@ == parts[1]
                    &&& name.application@ == application_part(plugin_id@)
                },
                None => parts.len() <= 2 || application_part(plugin_id@).len() == 0,
            }
        }),
{
    let parts = split(plugin_id, '.');
    let ghost all = texts(parts@);
    if parts.len() <= 2 {
        return None;
    }
    let mut rest: Vec<String> = Vec::new();
    let mut i: usize = 2;
    while i < parts.len()
        invariant
            2 <= i <= parts@.len(),
            rest@.len() == i - 2,
            all == texts(parts@),
            forall|k: int| 0 <= k < i - 2 ==> #[trigger] rest@[k]@ == all[k + 2],
        decreases parts@.len() - i,
    {
        rest.push(parts[i].clone());
        i += 1;
    }
    assert(texts(rest@) =~= all.skip(2));
    let application = join(&rest, "-");
    if application.as_str().is_empty() {
        return None;
    }
    Some(
        ProjectName {
            qualifier: parts[0].clone(),
            organization: parts[1].clone(),
            application,
        },
    )
}

/// The directory in which a GUI keeps its data, as the directories below its base.
#[derive(Debug)]
pub enum WebviewDataDir {
    /// Below the data directory of the product.
    Project { below: Vec<String> },
    /// Below the directory for temporary files.
    Temporary { below: Vec<String> },
}

/// The directory in which a GUI keeps its data: that of the product where the system has one,
/// and otherwise one among the temporary files. It is named after the plugin id.
pub fn webview_data_dir(plugin_id: &str, has_project_dir: bool) -> (dir: WebviewDataDir)
    ensures
        ({
            let name = plugin_id@.map_values(|c: char| directory_char(c));
            match dir {
                WebviewDataDir::Project { below } => has_project_dir && texts(below@) == seq![
                    "webview"@,
                    name,
                ],
                WebviewDataDir::Temporary { below } => !has_project_dir && texts(below@)
                    == seq![name, "webview"@, "data"@],
            }
        }),
{
    let name = sanitize_plugin_data_dir(plugin_id);
    let mut below: Vec<String> = Vec::new();
    if has_project_dir {
        below.push("webview".to_owned());
        below.push(name);
        assert(texts(below@) =~= seq![below@[0]@, below@[1]@]);
        WebviewDataDir::Project { below }
    } else {
        below.push(name);
        below.push("webview".to_owned());
        below.push("data".to_owned());
        assert(texts(below@) =~= seq![below@[0]@, below@[1]@, below@[2]@]);
        WebviewDataDir::Temporary { below }
    }
}

// A session

/// How long a frontend may take to answer before its page is replaced, in milliseconds.
pub const URL_PROBE_TIMEOUT_MS: u64 = 500;

/// What a web view is told to show.
#[derive(Debug)]
pub enum SessionPage {
    /// A page given as text.
    Html { html: String },
    /// A page at an address.
    Url { url: &'static str },
    /// A page at an address, once an archive is served under a scheme.
    Archive { scheme: &'static str, url: &'static str, bytes: &'static [u8] },
}

/// What a web view is told to show of a frontend. `failure` tells why the frontend's address
/// does not answer, where it was tried and does not.
pub fn session_page(
    frontend: WxpFrontendSource,
    failure: Option<&UrlProbeError>,
    timeout_ms: u64,
) -> (page: SessionPage)
    ensures
        match frontend {
            WxpFrontendSource::Html { html } => page matches SessionPage::Html { html: text }
                && text@ == html@,
            WxpFrontendSource::Url { url } => match failure {
                None => page == (SessionPage::Url { url }),
                Some(error) => page matches SessionPage::Html { html } && html@
                    == probe_error_page(url@, error.target@, error.error@, timeout_ms as nat),
            },
            WxpFrontendSource::Zip { scheme, url, bytes } => page == (SessionPage::Archive {
                scheme,
                url,
                bytes,
            }),
        },
{
    match frontend {
        WxpFrontendSource::Html { html } => SessionPage::Html { html: html.to_owned() },
        WxpFrontendSource::Url { url } => match failure {
            None => SessionPage::Url { url },
            Some(error) => SessionPage::Html { html: url_probe_error_html(url, error, timeout_ms) },
        },
        WxpFrontendSource::Zip { scheme, url, bytes } => SessionPage::Archive { scheme, url, bytes },
    }
}

/// The size within the limits that is nearest to the one that a host asks for.
pub fn clamp_size(size: GuiSize, limits: GuiSizeLimits) -> (result: GuiSize)
    requires
        limits.are_ordered(),
    ensures
        result == nearest_size(size, limits),
{
    clamp_size_with_limits(size, limits)
}

/// The size that a session has from its host, and the limits that it keeps to.
#[derive(Debug, Clone, Copy, PartialEq, Eq, Structural)]
pub struct SessionSize {
    pub host_size: GuiSize,
    pub limits: GuiSizeLimits,
}

impl SessionSize {
    /// Whether the size is within the limits.
    pub open spec fn wf(self) -> bool {
        self.limits.are_ordered() && nearest_size(self.host_size, self.limits) == self.host_size
    }

    /// The size of a session that is opened with a size.
    pub fn new(size: GuiSize, limits: GuiSizeLimits) -> (session: Self)
        requires
            limits.are_ordered(),
        ensures
            session.wf(),
            session.limits == limits,
            session.host_size == nearest_size(size, limits),
    {
        SessionSize { host_size: clamp_size(size, limits), limits }
    }

    /// The host gives the session another size.
    pub fn set_size(&mut self, size: GuiSize)
        requires
            old(self).wf(),
        ensures
            final(self).wf(),
            final(self).limits == old(self).limits,
            final(self).host_size == nearest_size(size, old(self).limits),
    {
        self.host_size = clamp_size(size, self.limits);
    }
}

/// Escaping goes character by character: what is escaped in one piece or in two is the same, and
/// the characters that HTML keeps for itself are written by the names that it gives them.
pub proof fn html_is_escaped_by_character(a: Seq<char>, b: Seq<char>, c: char)
    ensures
        escaped_html(a + b) == escaped_html(a) + escaped_html(b),
        escaped_html(seq!['&']) == "&amp;"@,
        escaped_html(seq!['<']) == "&lt;"@,
        escaped_html(seq!['>']) == "&gt;"@,
        escaped_html(seq!['"']) == "&quot;"@,
        escaped_html(seq!['\'']) == "&#39;"@,
        c != '&' && c != '<' && c != '>' && c != '"' && c != '\'' ==> escaped_html(seq![c])
            == seq![c],
    decreases b.len(),
{
    lemma_html_of_one('&');
    lemma_html_of_one('<');
    lemma_html_of_one('>');
    lemma_html_of_one('"');
    lemma_html_of_one('\'');
    lemma_html_of_one(c);
    if b.len() == 0 {
        assert(a + b =~= a);
        assert(escaped_html(a) + escaped_html(b) =~= escaped_html(a));
    } else {
        html_is_escaped_by_character(a, b.drop_last(), c);
        assert((a + b).drop_last() =~= a + b.drop_last());
        assert((a + b).last() == b.last());
        assert(escaped_html(a + b) =~= escaped_html(a) + escaped_html(b));
    }
}

proof fn lemma_html_of_one(c: char)
    ensures
        escaped_html(seq![c]) == escaped_html_char(c),
{
    reveal_with_fuel(escaped_html, 2);
    assert(seq![c].drop_last() =~= Seq::<char>::empty());
    assert(escaped_html(seq![c]) =~= escaped_html_char(c));
}

/// Escaping goes character by character, and each character that a script string cannot hold is
/// written by the escape that scripts have for it.
pub proof fn scripts_are_escaped_by_character(a: Seq<char>, b: Seq<char>, c: char)
    ensures
        escaped_js(a + b) == escaped_js(a) + escaped_js(b),
        escaped_js(seq!['\\']) == "\\\\"@,
        escaped_js(seq!['"']) == "\\\""@,
        escaped_js(seq!['&']) == "\\x26"@,
        escaped_js(seq!['<']) == "\\x3C"@,
        escaped_js(seq!['>']) == "\\x3E"@,
        escaped_js(seq!['\n']) == "\\n"@,
        escaped_js(seq!['\r']) == "\\r"@,
        escaped_js(seq!['\t']) == "\\t"@,
        escaped_js(seq!['\u{2028}']) == "\\u2028"@,
        escaped_js(seq!['\u{2029}']) == "\\u2029"@,
        c != '\\' && c != '"' && c != '&' && c != '<' && c != '>' && c != '\n' && c != '\r' && c
            != '\t' && c != '\u{2028}' && c != '\u{2029}' ==> escaped_js(seq![c]) == seq![c],
    decreases b.len(),
{
    lemma_js_of_one('\\');
    lemma_js_of_one('"');
    lemma_js_of_one('&');
    lemma_js_of_one('<');
    lemma_js_of_one('>');
    lemma_js_of_one('\n');
    lemma_js_of_one('\r');
    lemma_js_of_one('\t');
    lemma_js_of_one('\u{2028}');
    lemma_js_of_one('\u{2029}');
    lemma_js_of_one(c);
    if b.len() == 0 {
        assert(a + b =~= a);
        assert(escaped_js(a) + escaped_js(b) =~= escaped_js(a));
    } else {
        scripts_are_escaped_by_character(a, b.drop_last(), c);
        assert((a + b).drop_last() =~= a + b.drop_last());
        assert((a + b).last() == b.last());
        assert(escaped_js(a + b) =~= escaped_js(a) + escaped_js(b));
    }
}

proof fn lemma_js_of_one(c: char)
    ensures
        escaped_js(seq![c]) == escaped_js_char(c),
{
    reveal_with_fuel(escaped_js, 2);
    assert(seq![c].drop_last() =~= Seq::<char>::empty());
    assert(escaped_js(seq![c]) =~= escaped_js_char(c));
}

/// The page that stands in for a frontend shows each of its texts under its own heading, and the
/// script has the URL and the time under their own names.
pub proof fn pages_show_texts_under_their_headings(
    url: &str,
    error: UrlProbeError,
    timeout_ms: u64,
    page: String,
)
    requires
        call_ensures(url_probe_error_html, (url, &error, timeout_ms), page),
    ensures
        occurs_in(
            "<dt>Probe target</dt>\n          <dd><code>"@ + escaped_html(error.target@)
                + "</code></dd>"@,
            page@,
        ),
        occurs_in(
            "<dt>Timeout</dt>\n          <dd><code>"@ + decimal(timeout_ms as nat)
                + " ms</code></dd>"@,
            page@,
        ),
        occurs_in(
            "<dt>Error</dt>\n          <dd><pre id=\"error\">"@ + escaped_html(error.error@)
                + "</pre></dd>"@,
            page@,
        ),
        occurs_in("const url = \""@ + escaped_js(url@) + "\";"@, page@),
        occurs_in("const timeoutMs = "@ + decimal(timeout_ms as nat) + PAGE_TAIL@, page@),
        occurs_in(PAGE_HEAD@ + escaped_html(url@) + "</code></dd>"@, page@),
{
    lemma_page_has_texts(url@, error.target@, error.error@, timeout_ms as nat);
}

proof fn lemma_page_has_texts(
    url: Seq<char>,
    target: Seq<char>,
    error: Seq<char>,
    timeout_ms: nat,
)
    ensures
        ({
            let page = probe_error_page(url, target, error, timeout_ms);
            &&& occurs_in(
                "<dt>Probe target</dt>\n          <dd><code>"@ + escaped_html(target)
                    + "</code></dd>"@,
                page,
            )
            &&& occurs_in(
                "<dt>Timeout</dt>\n          <dd><code>"@ + decimal(timeout_ms)
                    + " ms</code></dd>"@,
                page,
            )
            &&& occurs_in(
                "<dt>Error</dt>\n          <dd><pre id=\"error\">"@ + escaped_html(error)
                    + "</pre></dd>"@,
                page,
            )
            &&& occurs_in("const url = \""@ + escaped_js(url) + "\";"@, page)
            &&& occurs_in("const timeoutMs = "@ + decimal(timeout_ms) + PAGE_TAIL@, page)
            &&& occurs_in(PAGE_HEAD@ + escaped_html(url) + "</code></dd>"@, page)
        }),
{
    let page = probe_error_page(url, target, error, timeout_ms);
    let u = escaped_html(url);
    let t = escaped_html(target);
    let ms = decimal(timeout_ms);
    let e = escaped_html(error);
    let j = escaped_js(url);
    lemma_page_after_url();
    lemma_page_after_target();
    lemma_page_after_timeout();
    lemma_page_after_error();
    lemma_page_after_script_url();
    let after_url = PAGE_HEAD@.len() + u.len();
    let after_target = after_url + PAGE_AFTER_URL@.len() + t.len();
    let after_timeout = after_target + PAGE_AFTER_TARGET@.len() + ms.len();
    let after_error = after_timeout + PAGE_AFTER_TIMEOUT@.len() + e.len();
    let after_script = after_error + PAGE_AFTER_ERROR@.len() + j.len();
    assert(PAGE_HEAD@.skip(0) =~= PAGE_HEAD@);
    assert(PAGE_TAIL@.take(PAGE_TAIL@.len() as int) =~= PAGE_TAIL@);
    assert(page.subrange(0, 0int + PAGE_HEAD@.len() + u.len() + PAGE_AFTER_URL@.len())
        =~= PAGE_HEAD@ + u + PAGE_AFTER_URL@);
    lemma_parts_occur(
        page,
        0,
        PAGE_HEAD@,
        u,
        PAGE_AFTER_URL@,
        PAGE_HEAD@,
        "</code></dd>"@,
    );
    assert(page.subrange(after_url as int, after_url as int + PAGE_AFTER_URL@.len() + t.len() + PAGE_AFTER_TARGET@.len())
        =~= PAGE_AFTER_URL@ + t + PAGE_AFTER_TARGET@);
    lemma_parts_occur(
        page,
        after_url as int,
        PAGE_AFTER_URL@,
        t,
        PAGE_AFTER_TARGET@,
        "<dt>Probe target</dt>\n          <dd><code>"@,
        "</code></dd>"@,
    );
    assert(page.subrange(after_target as int, after_target as int + PAGE_AFTER_TARGET@.len() + ms.len() + PAGE_AFTER_TIMEOUT@.len())
        =~= PAGE_AFTER_TARGET@ + ms + PAGE_AFTER_TIMEOUT@);
    lemma_parts_occur(
        page,
        after_target as int,
        PAGE_AFTER_TARGET@,
        ms,
        PAGE_AFTER_TIMEOUT@,
        "<dt>Timeout</dt>\n          <dd><code>"@,
        " ms</code></dd>"@,
    );
    assert(page.subrange(after_timeout as int, after_timeout as int + PAGE_AFTER_TIMEOUT@.len() + e.len() + PAGE_AFTER_ERROR@.len())
        =~= PAGE_AFTER_TIMEOUT@ + e + PAGE_AFTER_ERROR@);
    lemma_parts_occur(
        page,
        after_timeout as int,
        PAGE_AFTER_TIMEOUT@,
        e,
        PAGE_AFTER_ERROR@,
        "<dt>Error</dt>\n          <dd><pre id=\"error\">"@,
        "</pre></dd>"@,
    );
    assert(page.subrange(after_error as int, after_error as int + PAGE_AFTER_ERROR@.len() + j.len() + PAGE_AFTER_SCRIPT_URL@.len())
        =~= PAGE_AFTER_ERROR@ + j + PAGE_AFTER_SCRIPT_URL@);
    lemma_parts_occur(
        page,
        after_error as int,
        PAGE_AFTER_ERROR@,
        j,
        PAGE_AFTER_SCRIPT_URL@,
        "const url = \""@,
        "\";"@,
    );
    assert(page.subrange(after_script as int, after_script as int + PAGE_AFTER_SCRIPT_URL@.len() + ms.len() + PAGE_TAIL@.len())
        =~= PAGE_AFTER_SCRIPT_URL@ + ms + PAGE_TAIL@);
    lemma_parts_occur(
        page,
        after_script as int,
        PAGE_AFTER_SCRIPT_URL@,
        ms,
        PAGE_TAIL@,
        "const timeoutMs = "@,
        PAGE_TAIL@,
    );
}

proof fn lemma_page_after_url()
    ensures
        PAGE_AFTER_URL@.skip(PAGE_AFTER_URL@.len() - 42)
            == "<dt>Probe target</dt>\n          <dd><code>"@,
        "<dt>Probe target</dt>\n          <dd><code>"@.len() == 42,
        PAGE_AFTER_URL@.take(12) == "</code></dd>"@,
        "</code></dd>"@.len() == 12,
        PAGE_AFTER_URL@.len() == 94,
{
    reveal_strlit("</code></dd>\n        </div>\n        <div>\n          <dt>Probe target</dt>\n          <dd><code>");
    reveal_strlit("<dt>Probe target</dt>\n          <dd><code>");
    reveal_strlit("</code></dd>");
    assert(PAGE_AFTER_URL@.skip(52) =~= "<dt>Probe target</dt>\n          <dd><code>"@);
    assert(PAGE_AFTER_URL@.take(12) =~= "</code></dd>"@);
}

proof fn lemma_page_after_target()
    ensures
        PAGE_AFTER_TARGET@.skip(PAGE_AFTER_TARGET@.len() - 37)
            == "<dt>Timeout</dt>\n          <dd><code>"@,
        "<dt>Timeout</dt>\n          <dd><code>"@.len() == 37,
        PAGE_AFTER_TARGET@.take(12) == "</code></dd>"@,
        PAGE_AFTER_TARGET@.len() == 89,
{
    reveal_strlit("</code></dd>\n        </div>\n        <div>\n          <dt>Timeout</dt>\n          <dd><code>");
    reveal_strlit("<dt>Timeout</dt>\n          <dd><code>");
    reveal_strlit("</code></dd>");
    assert(PAGE_AFTER_TARGET@.skip(52) =~= "<dt>Timeout</dt>\n          <dd><code>"@);
    assert(PAGE_AFTER_TARGET@.take(12) =~= "</code></dd>"@);
}

proof fn lemma_page_after_timeout()
    ensures
        PAGE_AFTER_TIMEOUT@.skip(PAGE_AFTER_TIMEOUT@.len() - 45)
            == "<dt>Error</dt>\n          <dd><pre id=\"error\">"@,
        "<dt>Error</dt>\n          <dd><pre id=\"error\">"@.len() == 45,
        PAGE_AFTER_TIMEOUT@.take(15) == " ms</code></dd>"@,
        " ms</code></dd>"@.len() == 15,
        PAGE_AFTER_TIMEOUT@.len() == 100,
{
    reveal_strlit(" ms</code></dd>\n        </div>\n        <div>\n          <dt>Error</dt>\n          <dd><pre id=\"error\">");
    reveal_strlit("<dt>Error</dt>\n          <dd><pre id=\"error\">");
    reveal_strlit(" ms</code></dd>");
    assert(PAGE_AFTER_TIMEOUT@.skip(55) =~= "<dt>Error</dt>\n          <dd><pre id=\"error\">"@);
    assert(PAGE_AFTER_TIMEOUT@.take(15) =~= " ms</code></dd>"@);
}

proof fn lemma_page_after_error()
    ensures
        PAGE_AFTER_ERROR@.skip(PAGE_AFTER_ERROR@.len() - 13) == "const url = \""@,
        "const url = \""@.len() == 13,
        PAGE_AFTER_ERROR@.take(11) == "</pre></dd>"@,
        "</pre></dd>"@.len() == 11,
        PAGE_AFTER_ERROR@.len() == 137,
{
    reveal_strlit("</pre></dd>\n        </div>\n      </dl>\n      <button type=\"button\" id=\"retry\">Retry</button>\n    </main>\n    <script>\n      const url = \"");
    reveal_strlit("const url = \"");
    reveal_strlit("</pre></dd>");
    assert(PAGE_AFTER_ERROR@.skip(124) =~= "const url = \""@);
    assert(PAGE_AFTER_ERROR@.take(11) =~= "</pre></dd>"@);
}

proof fn lemma_page_after_script_url()
    ensures
        PAGE_AFTER_SCRIPT_URL@.skip(PAGE_AFTER_SCRIPT_URL@.len() - 18) == "const timeoutMs = "@,
        "const timeoutMs = "@.len() == 18,
        PAGE_AFTER_SCRIPT_URL@.take(2) == "\";"@,
        "\";"@.len() == 2,
        PAGE_AFTER_SCRIPT_URL@.len() == 27,
{
    reveal_strlit("\";\n      const timeoutMs = ");
    reveal_strlit("const timeoutMs = ");
    reveal_strlit("\";");
    assert(PAGE_AFTER_SCRIPT_URL@.skip(9) =~= "const timeoutMs = "@);
    assert(PAGE_AFTER_SCRIPT_URL@.take(2) =~= "\";"@);
}

/// The name of a directory keeps its letters, digits, dots and hyphens in their places, and has an
/// underscore for everything else.
pub proof fn directories_are_named_after_the_plugin(id: &str, name: String, i: int)
    requires
        call_ensures(sanitize_plugin_data_dir, (id,), name),
        0 <= i < id@.len(),
    ensures
        name@.len() == id@.len(),
        'a' <= id@[i] <= 'z' || 'A' <= id@[i] <= 'Z' || '0' <= id@[i] <= '9' || id@[i] == '.'
            || id@[i] == '-' ==> name@[i] == id@[i],
        !('a' <= id@[i] <= 'z' || 'A' <= id@[i] <= 'Z' || '0' <= id@[i] <= '9' || id@[i] == '.'
            || id@[i] == '-') ==> name@[i] == '_',
{
}

/// An id of three parts or more names a qualifier, an organization and an application, which
/// together are the id, with hyphens in the application where the id goes on with dots.
pub proof fn ids_name_a_project(
    qualifier: Seq<char>,
    organization: Seq<char>,
    application: Seq<char>,
    id: &str,
    name: Option<ProjectName>,
)
    requires
        split_at_each(id@, '.') == seq![qualifier, organization, application],
        application.len() > 0,
        call_ensures(project_name_from_plugin_id, (id,), name),
    ensures
        name matches Some(name) && name.qualifier@ == qualifier && name.organization@
            == organization && name.application@ == application,
{
    let parts = seq![qualifier, organization, application];
    assert(parts.skip(2) =~= seq![application]);
    crate::text::separators_stand_between_texts(
        application,
        Seq::empty(),
        Seq::empty(),
        "-"@,
    );
}

/// The data of a GUI lies below the product's directory where the system has one, else among the
/// temporary files; in either place in a directory of its own for each plugin.
pub proof fn data_lies_below_the_product(
    id: &str,
    name: String,
    has_project_dir: bool,
    dir: WebviewDataDir,
)
    requires
        call_ensures(sanitize_plugin_data_dir, (id,), name),
        call_ensures(webview_data_dir, (id, has_project_dir), dir),
    ensures
        dir is Project <==> has_project_dir,
        dir matches WebviewDataDir::Project { below } ==> below@.len() == 2 && below@[0]@
            == "webview"@ && below@[1]@ == name@,
        dir matches WebviewDataDir::Temporary { below } ==> below@.len() == 3 && below@[0]@ == name@
            && below@[1]@ == "webview"@ && below@[2]@ == "data"@,
{
    match dir {
        WebviewDataDir::Project { below } => {
            assert(texts(below@).len() == 2);
            assert(texts(below@)[0] == below@[0]@);
            assert(texts(below@)[1] == below@[1]@);
        },
        WebviewDataDir::Temporary { below } => {
            assert(texts(below@).len() == 3);
            assert(texts(below@)[0] == below@[0]@);
            assert(texts(below@)[1] == below@[1]@);
            assert(texts(below@)[2] == below@[2]@);
        },
    }
}

/// A frontend is shown as it is, unless it is at an address that was tried and did not answer. A
/// failure changes nothing for a frontend that is not at an address.
pub proof fn only_unreachable_addresses_are_replaced(
    frontend: WxpFrontendSource,
    failure: Option<&UrlProbeError>,
    timeout_ms: u64,
    page: SessionPage,
)
    requires
        call_ensures(session_page, (frontend, failure, timeout_ms), page),
    ensures
        frontend matches WxpFrontendSource::Html { html } ==> (page matches SessionPage::Html {
            html: shown,
        } && shown@ == html@),
        frontend matches WxpFrontendSource::Zip { scheme, url, bytes } ==> (page
            matches SessionPage::Archive { scheme: s, url: u, bytes: b } && s == scheme && u == url
            && b == bytes),
        frontend matches WxpFrontendSource::Url { url } ==> {
            &&& failure is None ==> (page matches SessionPage::Url { url: shown } && shown == url)
            &&& failure is Some ==> page is Html
        },
        frontend is Url && failure is Some ==> (page matches SessionPage::Html { html }
            && occurs_in("const url = \""@ + escaped_js(frontend->Url_url@) + "\";"@, html@)),
{
    if let WxpFrontendSource::Url { url } = frontend {
        if let Some(error) = failure {
            if let SessionPage::Html { html } = page {
                lemma_page_has_texts(url@, error.target@, error.error@, timeout_ms as nat);
            }
        }
    }
}

/// A session always has a size within its limits: the one that its host gives it, or the nearest.
pub proof fn sessions_stay_within_their_limits(
    size: GuiSize,
    limits: GuiSizeLimits,
    opened: SessionSize,
    changed: &mut SessionSize,
    other: GuiSize,
)
    requires
        limits.are_ordered(),
        call_ensures(SessionSize::new, (size, limits), opened),
        *changed == opened,
        call_ensures(SessionSize::set_size, (changed, other), ()),
    ensures
        limits.allow_size(opened.host_size),
        limits.allow_size(size) ==> opened.host_size == size,
        final(changed).limits == limits,
        limits.allow_size(final(changed).host_size),
        limits.allow_size(other) ==> final(changed).host_size == other,
        URL_PROBE_TIMEOUT_MS == 500,
{
}

/// A text of letters and digits stands in a page and in a script as it is.
pub proof fn plain_texts_are_shown_as_they_are(value: &str, html: String, script: String)
    requires
        forall|i: int|
            0 <= i < value@.len() ==> ('a' <= #[trigger] value@[i] <= 'z' || 'A' <= value@[i] <= 'Z'
                || '0' <= value@[i] <= '9'),
        call_ensures(escape_html, (value,), html),
        call_ensures(escape_js_string, (value,), script),
    ensures
        html@ == value@,
        script@ == value@,
{
    lemma_plain_texts_stay(value@);
}

proof fn lemma_plain_texts_stay(value: Seq<char>)
    requires
        forall|i: int|
            0 <= i < value.len() ==> ('a' <= #[trigger] value[i] <= 'z' || 'A' <= value[i] <= 'Z'
                || '0' <= value[i] <= '9'),
    ensures
        escaped_html(value) == value,
        escaped_js(value) == value,
    decreases value.len(),
{
    if value.len() > 0 {
        lemma_plain_texts_stay(value.drop_last());
        assert(value.last() == value[value.len() - 1]);
        assert(escaped_html(value) =~= value.drop_last() + seq![value.last()]);
        assert(escaped_js(value) =~= value.drop_last() + seq![value.last()]);
        assert(value.drop_last() + seq![value.last()] =~= value);
    }
}

} // verus!
