use vstd::prelude::*;
use crate::text::{chars_of, ends_with, is_prefix, is_suffix, range_equals, range_has_char, starts_with, string_of_range};

verus! {

/// `s` is `Payload/<app>/Info.plist` for a single path component `<app>`
/// that ends in `.app`: the `Info.plist` of the main application bundle.
pub open spec fn main_info_plist_name(s: Seq<char>) -> bool {
    let p = "Payload/"@;
    let q = "/Info.plist"@;
    &&& s.len() >= p.len() + q.len()
    &&& is_prefix(p, s)
    &&& is_suffix(q, s)
    &&& !s.subrange(p.len() as int, s.len() - q.len()).contains('/')
    &&& is_suffix(".app"@, s.subrange(p.len() as int, s.len() - q.len()))
}

/// The bundle name `<name>` of a path `Payload/<name>.app/Info.plist`, where
/// `<name>` is a non-empty single path component.
pub open spec fn bundle_name_spec(s: Seq<char>) -> Option<Seq<char>> {
    let p = "Payload/"@;
    let q = ".app/Info.plist"@;
    if s.len() >= p.len() + q.len() && is_prefix(p, s) && is_suffix(q, s) {
        let r = s.subrange(p.len() as int, s.len() - q.len());
        if r.len() > 0 && !r.contains('/') {
            Some(r)
        } else {
            None
        }
    } else {
        None
    }
}

/// Whether `s[from..to]` ends with `p`.
fn range_ends_with(s: &Vec<char>, from: usize, to: usize, p: &Vec<char>) -> (r: bool)
    requires
        from <= to <= s@.len(),
    ensures
        r == is_suffix(p@, s@.subrange(from as int, to as int)),
{
    if p.len() > to - from {
        false
    } else {
        let r = range_equals(s, to - p.len(), to, p);
        assert(s@.subrange(from as int, to as int).subrange(to - from - p@.len(), to - from)
            =~= s@.subrange(to - p@.len(), to as int));
        r
    }
}

/// Whether `name` is the `Info.plist` of the main application bundle, and
/// not that of an extension or a watch app inside it.
pub fn is_main_app_info_plist(name: &str) -> (r: bool)
    ensures
        r == main_info_plist_name(name@),
{
    let s = chars_of(name);
    let p = chars_of("Payload/");
    let q = chars_of("/Info.plist");
    let a = chars_of(".app");
    if s.len() < p.len() || s.len() - p.len() < q.len() {
        return false;
    }
    if !starts_with(&s, &p) || !ends_with(&s, &q) {
        return false;
    }
    let from = p.len();
    let to = s.len() - q.len();
    if range_has_char(&s, from, to, '/') {
        return false;
    }
    range_ends_with(&s, from, to, &a)
}

/// The name of the application bundle whose `Info.plist` is at
/// `info_plist_path`, if that path is `Payload/<name>.app/Info.plist`.
pub fn extract_bundle_name(info_plist_path: &str) -> (r: Option<String>)
    ensures
        match r {
            Some(n) => bundle_name_spec(info_plist_path@) == Some(n@),
            None => bundle_name_spec(info_plist_path@) is None,
        },
{
    let s = chars_of(info_plist_path);
    let p = chars_of("Payload/");
    let q = chars_of(".app/Info.plist");
    if s.len() < p.len() || s.len() - p.len() < q.len() {
        return None;
    }
    if !starts_with(&s, &p) || !ends_with(&s, &q) {
        return None;
    }
    let from = p.len();
    let to = s.len() - q.len();
    if from == to || range_has_char(&s, from, to, '/') {
        return None;
    }
    Some(string_of_range(&s, from, to))
}

/// A path that names a bundle also names the main application's
/// `Info.plist`: `extract_bundle_name` only accepts what
/// `is_main_app_info_plist` accepts.
pub proof fn bundle_path_is_main_info_plist(s: Seq<char>)
    requires
        bundle_name_spec(s) is Some,
    ensures
        main_info_plist_name(s),
{
    reveal_strlit("Payload/");
    reveal_strlit(".app/Info.plist");
    reveal_strlit("/Info.plist");
    reveal_strlit(".app");
    let n = s.len() as int;
    let mid = s.subrange(8, n - 11);
    let r = s.subrange(8, n - 15);
    assert(s.subrange(n - 15, n) == ".app/Info.plist"@);
    assert forall|i: int| 0 <= i < 11 implies s.subrange(n - 11, n)[i] == "/Info.plist"@[i] by {
        assert(s.subrange(n - 11, n)[i] == s.subrange(n - 15, n)[i + 4]);
    }
    assert(s.subrange(n - 11, n) =~= "/Info.plist"@);
    assert forall|i: int| 0 <= i < 4 implies mid.subrange(mid.len() - 4, mid.len() as int)[i]
        == ".app"@[i] by {
        assert(mid.subrange(mid.len() - 4, mid.len() as int)[i] == s.subrange(n - 15, n)[i]);
    }
    assert(mid.subrange(mid.len() - 4, mid.len() as int) =~= ".app"@);
    assert forall|i: int| 0 <= i < mid.len() implies mid[i] != '/' by {
        if i < r.len() {
            assert(mid[i] == r[i]);
        } else {
            assert(mid[i] == s.subrange(n - 15, n)[i - r.len()]);
        }
    }
}

/// The bundle name is read back from the path of its `Info.plist`: for a
/// non-empty name without `/`, `Payload/<name>.app/Info.plist` gives `<name>`.
pub proof fn bundle_name_round_trip(name: Seq<char>)
    requires
        name.len() > 0,
        !name.contains('/'),
    ensures
        bundle_name_spec("Payload/"@ + name + ".app/Info.plist"@) == Some(name),
{
    reveal_strlit("Payload/");
    reveal_strlit(".app/Info.plist");
    let p = "Payload/"@;
    let q = ".app/Info.plist"@;
    let s = p + name + q;
    let n = s.len() as int;
    assert(s.subrange(0, p.len() as int) =~= p);
    assert(s.subrange(n - q.len(), n) =~= q);
    assert(s.subrange(p.len() as int, n - q.len()) =~= name);
}

} // verus!
