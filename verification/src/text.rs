//! Text building blocks of the rewrite: escaping documentation text for a
//! `doc` attribute, the name of the file-inclusion macro, the recompilation
//! marker emitted for every file that was spliced in, and the anonymous item
//! that a file-test expansion falls back to.

use vstd::prelude::*;
use vstd::string::StrSliceExecFns;
use vstd::string::StringExecFns;

verus! {

/// One character of documentation text, escaped for splicing between the
/// quotes of a `doc` attribute: a backslash or a double quote gets a
/// backslash in front, every other character stands as it is.
pub open spec fn esc_char(c: char) -> Seq<char> {
    if c == '\\' {
        seq!['\\', '\\']
    } else if c == '"' {
        seq!['\\', '"']
    } else {
        seq![c]
    }
}

/// Text escaped character by character.
pub open spec fn escaped(s: Seq<char>) -> Seq<char>
    decreases s.len(),
{
    if s.len() == 0 {
        Seq::empty()
    } else {
        escaped(s.drop_last()) + esc_char(s.last())
    }
}

/// Escaped text leaves no bare double quote: every `"` in it stands
/// right after a `\`.  Spliced file contents therefore cannot end the
/// `doc` attribute they sit in, which keeps the rewritten output well
/// formed.
pub proof fn lemma_escaped_quote_guarded(s: Seq<char>, i: int)
    requires
        0 <= i < escaped(s).len(),
        escaped(s)[i] == '"',
    ensures
        i > 0,
        escaped(s)[i - 1] == '\\',
    decreases s.len(),
{
    let pre = escaped(s.drop_last());
    let e = esc_char(s.last());
    if i < pre.len() {
        lemma_escaped_quote_guarded(s.drop_last(), i);
    } else {
        assert(escaped(s)[i] == e[i - pre.len()]);
        if i - pre.len() == 0 {
            assert(e[0] != '"');
        } else {
            assert(s.last() == '"' && i - pre.len() == 1);
            assert(escaped(s)[i - 1] == e[0]);
        }
    }
}

/// Escaping is injective: two texts with the same escaped form are the
/// same text.  With `lemma_escaped_quote_guarded`, this pins the `doc`
/// attribute's contents — the documentation text can be read back off
/// the rewritten attribute unambiguously.
pub proof fn lemma_escaped_injective(a: Seq<char>, b: Seq<char>)
    requires
        escaped(a) == escaped(b),
    ensures
        a == b,
    decreases a.len(),
{
    if a.len() == 0 && b.len() == 0 {
        assert(a =~= b);
    } else if a.len() == 0 {
        assert(escaped(b).len() >= esc_char(b.last()).len());
    } else if b.len() == 0 {
        assert(escaped(a).len() >= esc_char(a.last()).len());
    } else {
        let ea = esc_char(a.last());
        let eb = esc_char(b.last());
        assert(escaped(a).last() == ea.last());
        assert(escaped(b).last() == eb.last());
        assert(a.last() == b.last());
        let pa = escaped(a.drop_last());
        let pb = escaped(b.drop_last());
        assert(escaped(a) == pa + ea);
        assert(escaped(b) == pb + eb);
        assert(pa.len() == pb.len());
        assert forall|i: int| 0 <= i < pa.len() implies pa[i] == pb[i] by {
            assert(pa[i] == (pa + ea)[i]);
            assert(pb[i] == (pb + eb)[i]);
        }
        assert(pa =~= pb);
        lemma_escaped_injective(a.drop_last(), b.drop_last());
        assert(a.len() == b.len());
        assert forall|i: int| 0 <= i < a.len() implies a[i] == b[i] by {
            if i < a.len() - 1 {
                assert(a[i] == a.drop_last()[i]);
                assert(b[i] == b.drop_last()[i]);
            } else {
                assert(a[i] == a.last());
                assert(b[i] == b.last());
            }
        }
        assert(a =~= b);
    }
}

/// Relies on std's `String::push`: appends exactly the one character.
#[verifier::external_body]
pub fn push_char(s: &mut String, c: char)
    ensures
        final(s)@ == old(s)@ + seq![c],
{
    s.push(c);
}

/// Escapes text for splicing into a `doc` attribute.
pub fn escape_text(s: &str) -> (r: String)
    ensures
        r@ == escaped(s@),
{
    proof {
        reveal_strlit("\\\\");
        reveal_strlit("\\\"");
        assert("\\\\"@ =~= seq!['\\', '\\']);
        assert("\\\""@ =~= seq!['\\', '"']);
    }
    let n = s.unicode_len();
    let mut r = String::new();
    let mut i: usize = 0;
    while i < n
        invariant
            n == s@.len(),
            i <= n,
            r@ == escaped(s@.take(i as int)),
        decreases n - i,
    {
        proof {
            reveal_strlit("\\\\");
            reveal_strlit("\\\"");
            assert("\\\\"@ =~= seq!['\\', '\\']);
            assert("\\\""@ =~= seq!['\\', '"']);
        }
        let c = s.get_char(i);
        if c == '\\' {
            r.append("\\\\");
        } else if c == '"' {
            r.append("\\\"");
        } else {
            push_char(&mut r, c);
        }
        proof {
            assert(s@.take(i + 1).drop_last() =~= s@.take(i as int));
            assert(s@.take(i + 1).last() == s@[i as int]);
            assert(r@ == escaped(s@.take(i + 1)));
        }
        i = i + 1;
    }
    proof {
        assert(s@.take(n as int) =~= s@);
    }
    r
}

/// Name of the only macro call accepted inside documentation arguments:
/// the compiler's file-inclusion macro.
pub open spec fn inclusion_macro_name() -> Seq<char> {
    "incl"@ + "ude_str"@
}

/// The inclusion macro's name as a `String`.
pub fn inclusion_macro_text() -> (r: String)
    ensures
        r@ == inclusion_macro_name(),
{
    let mut s = String::from_str("incl");
    s.append("ude_str");
    s
}

/// The marker declaration emitted for every file spliced into the output:
/// a constant that names the file through the inclusion macro again, so
/// that the build is redone when the file changes.
pub open spec fn inclusion_marker(name: Seq<char>, path: Seq<char>) -> Seq<char> {
    "const _: &'static str = "@ + name + "!(\""@ + path + "\");"@
}

/// Builds the marker declaration for one spliced file.
pub fn inclusion_marker_text(name: &str, path: &str) -> (r: String)
    ensures
        r@ == inclusion_marker(name@, path@),
{
    let mut s = String::from_str("const _: &'static str = ");
    s.append(name);
    s.append("!(\"");
    s.append(path);
    s.append("\");");
    s
}

/// The anonymous item that a file test without a name hangs its
/// documentation on: an empty foreign-items block.
pub open spec fn anon_test_item() -> Seq<char> {
    "ex"@ + "tern {}"@
}

/// The anonymous test item as a `String`.
pub fn anon_test_item_text() -> (r: String)
    ensures
        r@ == anon_test_item(),
{
    let mut s = String::from_str("ex");
    s.append("tern {}");
    s
}

} // verus!
