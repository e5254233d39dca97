//! Access to the files the game reads directly (the palette sources, the PNGs
//! it recolors and measures, the animation JSON and the Tiled maps).
//!
//! A build that cannot reach a filesystem embeds those files as a table of
//! `(path, bytes)` entries keyed by their path relative to `assets/`; looking
//! up that table is the library's part. (Reading them from disk is left to
//! the game shell.) The map loader asks for joined paths such as
//! `assets/maps/chunks/../tilesets/terrain.tsx`; [`asset_key`] normalizes the
//! `..` segments and strips everything up to `assets/` to get the key.
use vstd::prelude::*;
use vstd::utf8::{decode_utf8, valid_utf8};
use crate::common::same_text;

verus! {

/// The bytes stored under `rel` in `table`: the first entry with that path.
pub open spec fn lookup(table: Seq<(&str, &[u8])>, rel: Seq<char>) -> Option<Seq<u8>>
    decreases table.len(),
{
    if table.len() == 0 {
        None
    } else if table[0].0@ == rel {
        Some(table[0].1@)
    } else {
        lookup(table.drop_first(), rel)
    }
}

/// File contents for a path relative to `assets/` (forward slashes), from the
/// embedded table.
pub fn read_bytes(embedded: &[(&str, &[u8])], rel: &str) -> (r: Option<Vec<u8>>)
    ensures
        match lookup(embedded@, rel@) {
            Some(bytes) => r is Some && r->0@ == bytes,
            None => r is None,
        },
{
    let mut k: usize = 0;
    assert(embedded@.skip(0) =~= embedded@);
    while k < embedded.len()
        invariant
            k <= embedded@.len(),
            lookup(embedded@, rel@) == lookup(embedded@.skip(k as int), rel@),
        decreases embedded@.len() - k,
    {
        assert(embedded@.skip(k as int).drop_first() =~= embedded@.skip(k + 1));
        let (path, bytes) = embedded[k];
        if same_text(path, rel) {
            return Some(vstd::slice::slice_to_vec(bytes));
        }
        k = k + 1;
    }
    assert(embedded@.skip(k as int).len() == 0);
    None
}

/// Decodes UTF-8 text.
///
/// Calls `String::from_utf8`. What is claimed of it: it succeeds exactly when
/// the bytes are valid UTF-8 (as vstd's `valid_utf8` models it) and then holds
/// the decoded characters (as vstd's `decode_utf8` models them), which is what
/// the function's documentation says.
#[verifier::external_body]
fn utf8_string(bytes: Vec<u8>) -> (r: Option<String>)
    ensures
        r is Some <==> valid_utf8(bytes@),
        r matches Some(s) ==> s@ == decode_utf8(bytes@),
{
    String::from_utf8(bytes).ok()
}

/// The text of a file's bytes, if they are valid UTF-8.
pub fn utf8_text(bytes: Vec<u8>) -> (r: Option<String>)
    ensures
        r is Some <==> valid_utf8(bytes@),
        r matches Some(s) ==> s@ == decode_utf8(bytes@),
{
    utf8_string(bytes)
}

/// UTF-8 file contents for a path relative to `assets/`, from the embedded
/// table: none when there is no such file or it is not valid UTF-8.
pub fn read_string(embedded: &[(&str, &[u8])], rel: &str) -> (r: Option<String>)
    ensures
        match lookup(embedded@, rel@) {
            Some(bytes) => (r is Some <==> valid_utf8(bytes)) && (r matches Some(s) ==> s@ == decode_utf8(bytes)),
            None => r is None,
        },
{
    match read_bytes(embedded, rel) {
        Some(bytes) => utf8_text(bytes),
        None => None,
    }
}

/// One component of a filesystem path.
#[derive(Debug)]
pub enum PathPart {
    /// A named component (a directory or file name).
    Normal(String),
    /// `..`
    Parent,
    /// Anything else (a root, a prefix, `.`): skipped.
    Other,
}

/// The named components left after resolving `..` against the components
/// before it; none if a `..` has nothing left to remove.
pub open spec fn resolved(parts: Seq<PathPart>) -> Option<Seq<Seq<char>>>
    decreases parts.len(),
{
    if parts.len() == 0 {
        Some(Seq::empty())
    } else {
        match resolved(parts.drop_last()) {
            None => None,
            Some(stack) => match parts.last() {
                PathPart::Normal(s) => Some(stack.push(s@)),
                PathPart::Parent => if stack.len() == 0 { None } else { Some(stack.drop_last()) },
                PathPart::Other => Some(stack),
            },
        }
    }
}

/// The components joined with `/`.
pub open spec fn joined(parts: Seq<Seq<char>>) -> Seq<char>
    decreases parts.len(),
{
    if parts.len() == 0 {
        Seq::empty()
    } else if parts.len() == 1 {
        parts[0]
    } else {
        joined(parts.drop_last()) + seq!['/'] + parts.last()
    }
}

/// The table key of a joined path: its resolved components after the last
/// `assets` component, joined with `/`; none if `..` escapes the path or no
/// component is `assets`.
pub open spec fn asset_key_spec(parts: Seq<PathPart>) -> Option<Seq<char>> {
    match resolved(parts) {
        None => None,
        Some(stack) => if exists|i: int| 0 <= i < stack.len() && stack[i] == "assets"@ {
            let k = choose|i: int| 0 <= i < stack.len() && stack[i] == "assets"@ && forall|j: int| i < j < stack.len() ==> stack[j] != "assets"@;
            Some(joined(stack.skip(k + 1)))
        } else {
            None
        },
    }
}

/// Resolves the components of a path.
fn resolve(parts: &Vec<PathPart>) -> (r: Option<Vec<String>>)
    ensures
        match resolved(parts@) {
            None => r is None,
            Some(stack) => r is Some && r->0@.len() == stack.len()
                && forall|i: int| 0 <= i < stack.len() ==> (#[trigger] r->0@[i])@ == stack[i],
        },
{
    let mut stack: Vec<String> = Vec::new();
    let mut k: usize = 0;
    while k < parts.len()
        invariant
            k <= parts@.len(),
            resolved(parts@.subrange(0, k as int)) is Some,
            stack@.len() == resolved(parts@.subrange(0, k as int))->0.len(),
            forall|i: int| 0 <= i < stack@.len() ==> (#[trigger] stack@[i])@ == resolved(parts@.subrange(0, k as int))->0[i],
        decreases parts@.len() - k,
    {
        let ghost before = resolved(parts@.subrange(0, k as int))->0;
        assert(parts@.subrange(0, k + 1).drop_last() =~= parts@.subrange(0, k as int));
        match &parts[k] {
            PathPart::Normal(s) => {
                stack.push(s.clone());
            },
            PathPart::Parent => {
                if stack.len() == 0 {
                    proof {
                        assert(resolved(parts@.subrange(0, k + 1)) is None);
                        lemma_unresolved_stays(parts@, k + 1);
                        assert(parts@.subrange(0, parts@.len() as int) =~= parts@);
                    }
                    return None;
                }
                stack.pop();
            },
            PathPart::Other => {},
        }
        k = k + 1;
    }
    assert(parts@.subrange(0, k as int) =~= parts@);
    Some(stack)
}

/// Once a prefix fails to resolve, every longer prefix fails too.
proof fn lemma_unresolved_stays(parts: Seq<PathPart>, k: int)
    requires
        0 <= k <= parts.len(),
        resolved(parts.subrange(0, k)) is None,
    ensures
        resolved(parts.subrange(0, parts.len() as int)) is None,
    decreases parts.len() - k,
{
    if k < parts.len() {
        assert(parts.subrange(0, k + 1).drop_last() =~= parts.subrange(0, k));
        lemma_unresolved_stays(parts, k + 1);
    }
}

/// The table key for a path the map loader asks for, if it lies under an
/// `assets` directory.
pub fn asset_key(parts: &Vec<PathPart>) -> (r: Option<String>)
    ensures
        match asset_key_spec(parts@) {
            Some(key) => r is Some && r->0@ == key,
            None => r is None,
        },
{
    let stack = match resolve(parts) {
        Some(s) => s,
        None => return None,
    };
    let ghost st = resolved(parts@)->0;
    // The last `assets` component.
    let mut i: usize = stack.len();
    let mut found = false;
    while i > 0
        invariant_except_break
            !found,
        invariant
            i <= stack@.len(),
            stack@.len() == st.len(),
            forall|j: int| 0 <= j < st.len() ==> (#[trigger] stack@[j])@ == st[j],
            forall|j: int| i <= j < st.len() ==> st[j] != "assets"@,
        ensures
            found ==> i >= 1 && st[i - 1] == "assets"@,
            !found ==> i == 0,
        decreases i,
    {
        if same_text(stack[i - 1].as_str(), "assets") {
            found = true;
            break;
        }
        i = i - 1;
    }
    if !found {
        assert(!exists|j: int| 0 <= j < st.len() && st[j] == "assets"@);
        return None;
    }
    let ghost a = (i - 1) as int;
    assert(st[a] == "assets"@);
    let ghost k = choose|j: int| 0 <= j < st.len() && st[j] == "assets"@ && forall|m: int| j < m < st.len() ==> st[m] != "assets"@;
    assert(k == a) by {
        if k < a {
            assert(st[a] != "assets"@);
        } else if k > a {
            assert(st[k] != "assets"@);
        }
    }
    // Join the components after it.
    let mut key = String::new();
    let mut j: usize = i;
    while j < stack.len()
        invariant
            i <= j <= stack@.len(),
            stack@.len() == st.len(),
            i >= 1,
            forall|m: int| 0 <= m < st.len() ==> (#[trigger] stack@[m])@ == st[m],
            key@ == joined(st.subrange(i as int, j as int)),
        decreases stack@.len() - j,
    {
        let ghost prev = st.subrange(i as int, j as int);
        assert(st.subrange(i as int, j + 1).drop_last() =~= prev);
        if j > i {
            key.append("/");
        }
        key.append(stack[j].as_str());
        proof {
            reveal_strlit("/");
            if j > i {
                assert(key@ =~= joined(st.subrange(i as int, j + 1)));
            } else {
                assert(st.subrange(i as int, j + 1).len() == 1);
                assert(key@ =~= joined(st.subrange(i as int, j + 1)));
            }
        }
        j = j + 1;
    }
    assert(st.subrange(i as int, j as int) =~= st.skip(k + 1));
    Some(key)
}

} // verus!
