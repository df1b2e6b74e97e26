//! Small pieces shared by the rest: cleaning up property-list answers, the
//! device identifier, and styled messages.
use vstd::prelude::*;
use vstd::string::StrSliceExecFns;
use vstd::utf8::encode_utf8;
use crate::error::{ErrorView, IpaToolError};
use owo_colors::OwoColorize;
use crate::text::{
    chars_of, concat, concat3, contains_chars, contains_seq, from_utf8_lossy, hex_byte,
    is_upper_hex, lemma_without_char_concat, opt_seq, remove_char, to_upper, trim, trim_str, upper_case,
    utf8_lossy, without_char,
};

verus! {

// ---------------------------------------------------------------------------
// Property-list answers
// ---------------------------------------------------------------------------

/// The text of the first capture group in the first match of the regular
/// expression `pattern` in `s`, as the `regex` crate finds it; none when the
/// pattern does not compile, nothing matches or the group took no part.
pub uninterp spec fn regex_group(pattern: Seq<char>, s: Seq<char>) -> Option<Seq<char>>;

/// The text of the first match of the regular expression `pattern` in `s`,
/// as the `regex` crate finds it; none when the pattern does not compile or
/// nothing matches.
pub uninterp spec fn regex_match(pattern: Seq<char>, s: Seq<char>) -> Option<Seq<char>>;

/// `Regex::new(pattern)` and then `Regex::captures` on `s`, its first group
/// taken as text. The result is named as a whole.
#[verifier::external_body]
fn first_group(pattern: &str, s: &str) -> (r: Option<String>)
    ensures
        opt_seq(r) == regex_group(pattern@, s@),
{
    let re = regex::Regex::new(pattern).ok()?;
    re.captures(s).and_then(|c| c.get(1)).map(|m| m.as_str().to_string())
}

/// `Regex::new(pattern)` and then `Regex::find` on `s`, as text. The result
/// is named as a whole.
#[verifier::external_body]
fn first_match(pattern: &str, s: &str) -> (r: Option<String>)
    ensures
        opt_seq(r) == regex_match(pattern@, s@),
{
    let re = regex::Regex::new(pattern).ok()?;
    re.find(s).map(|m| m.as_str().to_string())
}

/// A `Document` element, case-insensitively and across lines, with what it
/// holds as the group.
pub const DOCUMENT_PATTERN: &'static str = "(?is)<Document\\b[^>]*>(.*)</Document>";

/// The first `plist` element, case-insensitively and across lines.
pub const PLIST_PATTERN: &'static str = "(?is)<plist\\b[^>]*>.*?</plist>";

/// A `dict` element up to the last closing tag, case-insensitively and
/// across lines.
pub const DICT_PATTERN: &'static str = "(?is)<dict\\b[^>]*>.*</dict>";

/// The text inside the first `Document` element of `s`.
pub open spec fn document_inner(s: Seq<char>) -> Option<Seq<char>> {
    regex_group(DOCUMENT_PATTERN@, s)
}

/// The first `plist` element of `s`.
pub open spec fn plist_element(s: Seq<char>) -> Option<Seq<char>> {
    regex_match(PLIST_PATTERN@, s)
}

/// The `dict` element of `s`.
pub open spec fn dict_element(s: Seq<char>) -> Option<Seq<char>> {
    regex_match(DICT_PATTERN@, s)
}

/// The text inside a `Document` wrapper, trimmed, when the wrapper was found
/// and holds something; the text itself otherwise.
pub open spec fn after_document(s: Seq<char>, inner: Option<Seq<char>>) -> Seq<char> {
    match inner {
        Some(i) => if trim(i).len() > 0 {
            trim(i)
        } else {
            s
        },
        None => s,
    }
}

/// The `plist` element, trimmed, when one was found; the text otherwise.
pub open spec fn after_plist(s: Seq<char>, element: Option<Seq<char>>) -> Seq<char> {
    match element {
        Some(m) => trim(m),
        None => s,
    }
}

/// The body made of the unwrapped text `s`: the `dict` element, trimmed,
/// when one was found; else the text in a dictionary when it holds a key;
/// else the text as it is.
pub open spec fn body_of(s: Seq<char>, dict: Option<Seq<char>>) -> Seq<u8> {
    match dict {
        Some(m) => encode_utf8(trim(m)),
        None => if contains_seq(s, "<key>"@) {
            encode_utf8("<dict>"@ + s + "</dict>"@)
        } else {
            encode_utf8(s)
        },
    }
}

/// The answer's text after the `Document` wrapper, if any, has been taken
/// off and the `plist` element, if any, picked out.
pub open spec fn unwrapped_text(body: Seq<u8>) -> Seq<char> {
    let s0 = trim(utf8_lossy(body));
    let s1 = after_document(s0, document_inner(s0));
    after_plist(s1, plist_element(s1))
}

/// A store answer made into a bare property-list dictionary: an HTML
/// `Document` wrapper and the `plist` element around it are taken off, and
/// bare keys are put in a dictionary.
pub open spec fn normalize_spec(body: Seq<u8>) -> Seq<u8> {
    if trim(utf8_lossy(body)).len() == 0 {
        Seq::empty()
    } else {
        let s = unwrapped_text(body);
        body_of(s, dict_element(s))
    }
}

/// Takes off the `Document` wrapper whose inside the pattern captured.
pub fn unwrap_document(s: String, inner: Option<String>) -> (r: String)
    ensures
        r@ == after_document(s@, opt_seq(inner)),
{
    match inner {
        Some(i) => {
            let t = trim_str(i.as_str());
            if chars_of(t.as_str()).len() > 0 {
                t
            } else {
                s
            }
        },
        None => s,
    }
}

/// Picks out the `plist` element that the pattern found.
pub fn unwrap_plist(s: String, element: Option<String>) -> (r: String)
    ensures
        r@ == after_plist(s@, opt_seq(element)),
{
    match element {
        Some(m) => trim_str(m.as_str()),
        None => s,
    }
}

/// The body made of the unwrapped text and the `dict` element the pattern
/// found in it.
pub fn body_from(s: &str, dict: Option<String>) -> (r: Vec<u8>)
    ensures
        r@ == body_of(s@, opt_seq(dict)),
{
    if let Some(m) = dict {
        let t = trim_str(m.as_str());
        return t.as_str().as_bytes_vec();
    }
    let key = chars_of("<key>");
    if contains_chars(&chars_of(s), &key) {
        let wrapped = concat3("<dict>", s, "</dict>");
        return wrapped.as_str().as_bytes_vec();
    }
    s.as_bytes_vec()
}

/// Makes a store answer into a bare property-list dictionary.
pub fn normalize_plist_body(body: &[u8]) -> (r: Vec<u8>)
    ensures
        r@ == normalize_spec(body@),
{
    let raw = from_utf8_lossy(body);
    let s0 = trim_str(raw.as_str());
    if chars_of(s0.as_str()).len() == 0 {
        return Vec::new();
    }
    let inner = first_group(DOCUMENT_PATTERN, s0.as_str());
    let s1 = unwrap_document(s0, inner);
    let element = first_match(PLIST_PATTERN, s1.as_str());
    let s2 = unwrap_plist(s1, element);
    let dict = first_match(DICT_PATTERN, s2.as_str());
    body_from(s2.as_str(), dict)
}

// ---------------------------------------------------------------------------
// The device identifier
// ---------------------------------------------------------------------------

/// How `mac_address` displays an address of six bytes: each byte as two
/// upper-case hexadecimal digits, with colons between them.
pub open spec fn mac_display(b: Seq<u8>) -> Seq<char> {
    hex_byte(b[0]) + ":"@ + hex_byte(b[1]) + ":"@ + hex_byte(b[2]) + ":"@ + hex_byte(b[3])
        + ":"@ + hex_byte(b[4]) + ":"@ + hex_byte(b[5])
}

/// What looking up the machine's MAC address gave.
#[derive(Debug, Clone)]
pub enum MacLookup {
    Found(String),
    NotFound,
    Failed(String),
}

/// `mac_address::get_mac_address`, the address displayed. Which address it
/// finds depends on the machine; the contract says only that the text is the
/// display of some six bytes.
#[verifier::external_body]
fn lookup_mac_address() -> (r: MacLookup)
    ensures
        r matches MacLookup::Found(t) ==> exists|b: Seq<u8>| b.len() == 6 && t@ == mac_display(b),
{
    match mac_address::get_mac_address() {
        Ok(Some(m)) => MacLookup::Found(m.to_string()),
        Ok(None) => MacLookup::NotFound,
        Err(e) => MacLookup::Failed(e.to_string()),
    }
}

/// The device identifier spelled by a displayed MAC address: the colons
/// taken out and the rest upper-cased.
pub open spec fn guid_spec(text: Seq<char>) -> Seq<char> {
    upper_case(without_char(text, ':'))
}

/// The device identifier made from a displayed MAC address; an address that
/// leaves nothing is refused.
pub fn guid_from_mac_text(text: &str) -> (r: Result<String, IpaToolError>)
    ensures
        match r {
            Ok(g) => g@ == guid_spec(text@) && g@.len() > 0,
            Err(e) => guid_spec(text@).len() == 0 && e@ == ErrorView::EmptyMacAddress,
        },
        all_upper_hex(without_char(text@, ':')) && without_char(text@, ':').len() > 0 ==> (r
            matches Ok(g) && g@ == without_char(text@, ':')),
{
    let bare = remove_char(text, ':');
    let g = to_upper(bare.as_str());
    accept_guid(g)
}

/// An upper-cased identifier is accepted when it is not empty.
pub fn accept_guid(g: String) -> (r: Result<String, IpaToolError>)
    ensures
        match r {
            Ok(x) => x == g && g@.len() > 0,
            Err(e) => g@.len() == 0 && e@ == ErrorView::EmptyMacAddress,
        },
{
    if chars_of(g.as_str()).len() == 0 {
        return Err(IpaToolError::EmptyMacAddress);
    }
    Ok(g)
}

/// Twelve upper-case hexadecimal digits.
pub open spec fn is_device_guid(g: Seq<char>) -> bool {
    g.len() == 12 && all_upper_hex(g)
}

/// The digits of a byte are digits or capitals `A` to `F`, and no colon.
proof fn lemma_hex_byte(b: u8)
    ensures
        hex_byte(b).len() == 2,
        is_upper_hex(hex_byte(b)[0]),
        is_upper_hex(hex_byte(b)[1]),
        without_char(hex_byte(b), ':') == hex_byte(b),
{
    let h = hex_byte(b);
    let one = seq![h[0]];
    assert(h.drop_last() =~= one);
    assert(one.drop_last() =~= Seq::<char>::empty());
    assert(h[0] != ':' && h[1] != ':');
    assert(without_char(one, ':') =~= one) by {
        assert(without_char(one.drop_last(), ':') =~= Seq::<char>::empty());
    }
    assert(without_char(h, ':') =~= without_char(one, ':').push(h[1]));
    assert(one.push(h[1]) =~= h);
}

/// All characters of `s` are digits or capitals `A` to `F`.
pub open spec fn all_upper_hex(s: Seq<char>) -> bool {
    forall|i: int| 0 <= i < s.len() ==> is_upper_hex(#[trigger] s[i])
}

/// One more colon and byte keep the colon-free text all digits.
proof fn lemma_display_step(acc: Seq<char>, x: u8)
    requires
        all_upper_hex(without_char(acc, ':')),
    ensures
        all_upper_hex(without_char(acc + ":"@ + hex_byte(x), ':')),
        without_char(acc + ":"@ + hex_byte(x), ':').len() == without_char(acc, ':').len() + 2,
{
    let colon = ":"@;
    reveal_strlit(":");
    assert(colon =~= seq![':']);
    assert(colon.drop_last() =~= Seq::<char>::empty());
    assert(without_char(colon.drop_last(), ':') =~= Seq::<char>::empty());
    assert(without_char(colon, ':') =~= Seq::<char>::empty());
    lemma_hex_byte(x);
    lemma_without_char_concat(acc, colon, ':');
    lemma_without_char_concat(acc + colon, hex_byte(x), ':');
    let w = without_char(acc, ':');
    assert(without_char(acc + colon, ':') =~= w);
    assert(without_char(acc + colon + hex_byte(x), ':') =~= w + hex_byte(x));
}

/// Without its colons, a displayed address is twelve digits or capitals
/// `A` to `F`.
pub proof fn lemma_mac_display_digits(b: Seq<u8>)
    requires
        b.len() == 6,
    ensures
        is_device_guid(without_char(mac_display(b), ':')),
{
    lemma_hex_byte(b[0]);
    let a0 = hex_byte(b[0]);
    lemma_display_step(a0, b[1]);
    let a1 = a0 + ":"@ + hex_byte(b[1]);
    lemma_display_step(a1, b[2]);
    let a2 = a1 + ":"@ + hex_byte(b[2]);
    lemma_display_step(a2, b[3]);
    let a3 = a2 + ":"@ + hex_byte(b[3]);
    lemma_display_step(a3, b[4]);
    let a4 = a3 + ":"@ + hex_byte(b[4]);
    lemma_display_step(a4, b[5]);
    let a5 = a4 + ":"@ + hex_byte(b[5]);
    assert(a5 == mac_display(b));
}

/// The device identifier of this machine: twelve upper-case hexadecimal
/// digits, or the reason there is none.
pub fn guid_from_mac() -> (r: Result<String, IpaToolError>)
    ensures
        match r {
            Ok(g) => is_device_guid(g@) && exists|b: Seq<u8>|
                b.len() == 6 && g@ == without_char(#[trigger] mac_display(b), ':'),
            Err(e) => e is EmptyMacAddress || e is MacAddress,
        },
{
    match lookup_mac_address() {
        MacLookup::Found(t) => {
            let ghost b = choose|b: Seq<u8>| b.len() == 6 && t@ == mac_display(b);
            proof {
                lemma_mac_display_digits(b);
            }
            let r = guid_from_mac_text(t.as_str());
            assert(r matches Ok(g) ==> g@ == without_char(mac_display(b), ':'));
            r
        },
        MacLookup::NotFound => Err(IpaToolError::EmptyMacAddress),
        MacLookup::Failed(m) => Err(IpaToolError::MacAddress(m)),
    }
}

// ---------------------------------------------------------------------------
// Styled messages
// ---------------------------------------------------------------------------

/// `text` in black on green: the escape that sets foreground 30 and
/// background 42, the text, and the escape that resets.
pub open spec fn black_on_green(text: Seq<char>) -> Seq<char> {
    "\u{1b}[30;42m"@ + text + "\u{1b}[0m"@
}

/// `text` in white on red: the escape that sets foreground 37 and
/// background 41, the text, and the escape that resets.
pub open spec fn white_on_red(text: Seq<char>) -> Seq<char> {
    "\u{1b}[37;41m"@ + text + "\u{1b}[0m"@
}

/// `text.fg::<Black>().bg::<Green>()` from `owo_colors`, displayed: the
/// combined colour writes `ESC [`, the foreground code, `;`, the background
/// code and `m`, then the text, then `ESC [0m`.
#[verifier::external_body]
fn paint_black_on_green(text: &str) -> (r: String)
    ensures
        r@ == black_on_green(text@),
{
    format!("{}", text.fg::<owo_colors::colors::Black>().bg::<owo_colors::colors::Green>())
}

/// `text.fg::<White>().bg::<Red>()` from `owo_colors`, displayed, in the same
/// way.
#[verifier::external_body]
fn paint_white_on_red(text: &str) -> (r: String)
    ensures
        r@ == white_on_red(text@),
{
    format!("{}", text.fg::<owo_colors::colors::White>().bg::<owo_colors::colors::Red>())
}

/// A success message for the terminal.
pub fn with_success_style(text: String) -> (r: String)
    ensures
        r@ == "[SUCCESS]: "@ + black_on_green(text@),
{
    let painted = paint_black_on_green(text.as_str());
    success_line(painted.as_str())
}

/// The line of a success message whose text is already painted.
pub fn success_line(painted: &str) -> (r: String)
    ensures
        r@ == "[SUCCESS]: "@ + painted@,
{
    concat("[SUCCESS]: ", painted)
}

/// An error message for the terminal.
pub fn with_error_style(text: String) -> (r: String)
    ensures
        r@ == "[ERROR]: "@ + white_on_red(text@),
{
    let painted = paint_white_on_red(text.as_str());
    error_line(painted.as_str())
}

/// The line of an error message whose text is already painted.
pub fn error_line(painted: &str) -> (r: String)
    ensures
        r@ == "[ERROR]: "@ + painted@,
{
    concat("[ERROR]: ", painted)
}

} // verus!
