//! Small string conveniences used when presenting model output and keys.

use vstd::prelude::*;
use vstd::utf8::{encode_utf8, is_char_boundary};

use crate::text::{chars_of, string_from_chars};

verus! {

/// What follows the first occurrence of `c` in `s`, if `c` occurs.
pub open spec fn after_first(s: Seq<char>, c: char) -> Option<Seq<char>>
    decreases s.len(),
{
    if s.len() == 0 {
        None
    } else if s[0] == c {
        Some(s.drop_first())
    } else {
        after_first(s.drop_first(), c)
    }
}

/// What follows the first `c`: for a text made of a part without `c`,
/// then `c`, then anything, it is that last part; a text without `c` has
/// nothing after a `c`.
pub proof fn law_after_first_is_rest(head: Seq<char>, c: char, rest: Seq<char>)
    requires
        crate::text::count_char(head, c) == 0,
    ensures
        after_first(head + seq![c] + rest, c) == Some(rest),
        after_first(head, c) is None,
    decreases head.len(),
{
    if head.len() == 0 {
        assert(head + seq![c] + rest =~= seq![c] + rest);
        assert((seq![c] + rest).drop_first() =~= rest);
    } else {
        let tail = head.drop_first();
        assert(head =~= seq![head[0]] + tail);
        crate::text::lemma_count_concat(seq![head[0]], tail, c);
        assert(seq![head[0]].drop_last() =~= Seq::<char>::empty());
        assert(head[0] != c);
        law_after_first_is_rest(tail, c, rest);
        assert((head + seq![c] + rest).drop_first() =~= tail + seq![c] + rest);
    }
}

/// `s` without its first line, or `s` itself when it has a single line.
pub open spec fn without_first_line(s: Seq<char>) -> Seq<char> {
    match after_first(s, '\n') {
        Some(rest) => rest,
        None => s,
    }
}

/// The character count of `s` minus `suffix_len`: the byte offset at which
/// `shortify` cuts off the part it keeps at the end.
pub open spec fn shortify_cut(s: Seq<char>, suffix_len: nat) -> int {
    s.len() - suffix_len
}

/// The inputs on which `shortify` does not panic: the prefix ends on a
/// character boundary, and so does the cut, which must not be negative.
pub open spec fn shortify_accepts(s: Seq<char>, prefix_len: nat, suffix_len: nat) -> bool {
    &&& suffix_len <= s.len()
    &&& is_char_boundary(encode_utf8(s), prefix_len as int)
    &&& is_char_boundary(encode_utf8(s), shortify_cut(s, suffix_len))
}

/// The UTF-8 bytes of what `shortify` returns: the first `prefix_len` bytes,
/// then `delim`, then the bytes from the cut on.
pub open spec fn shortify_bytes(s: Seq<char>, prefix_len: nat, suffix_len: nat, delim: Seq<char>) -> Seq<u8> {
    let bytes = encode_utf8(s);
    bytes.subrange(0, prefix_len as int) + encode_utf8(delim) + bytes.subrange(
        shortify_cut(s, suffix_len),
        bytes.len() as int,
    )
}

/// Extra string operations.
pub trait StringExt: Sized {
    /// The characters of the receiver.
    spec fn chars_view(&self) -> Seq<char>;

    /// Tries to drop the first line of a string, otherwise just returns the same string
    fn drop_first_line(self) -> (res: String)
        ensures
            res@ == without_first_line(self.chars_view()),
    ;

    /// Keeps the first `prefix_len` bytes and what follows the first
    /// `chars().count() - suffix_len` bytes, with `delim` in between.
    fn shortify(self, prefix_len: usize, suffix_len: usize, delim: &str) -> (res: String)
        requires
            shortify_accepts(self.chars_view(), prefix_len as nat, suffix_len as nat),
        ensures
            encode_utf8(res@) == shortify_bytes(
                self.chars_view(),
                prefix_len as nat,
                suffix_len as nat,
                delim@,
            ),
    ;
}

/// UTF-8 encoding distributes over concatenation.
pub proof fn lemma_encode_concat(a: Seq<char>, b: Seq<char>)
    ensures
        encode_utf8(a + b) == encode_utf8(a) + encode_utf8(b),
    decreases a.len(),
{
    if a.len() == 0 {
        assert(a + b =~= b);
        assert(encode_utf8(a) =~= Seq::<u8>::empty());
        assert(encode_utf8(a + b) =~= encode_utf8(a) + encode_utf8(b));
    } else {
        lemma_encode_concat(a.drop_first(), b);
        assert((a + b).drop_first() =~= a.drop_first() + b);
        assert((a + b)[0] == a[0]);
        assert(encode_utf8(a + b) =~= encode_utf8(a) + encode_utf8(b));
    }
}

impl<'a> StringExt for &'a str {
    open spec fn chars_view(&self) -> Seq<char> {
        (**self)@
    }

    fn drop_first_line(self) -> (res: String) {
        let chars = chars_of(self);
        assert(chars@.skip(0) =~= chars@);
        let mut i: usize = 0;
        while i < chars.len()
            invariant
                i <= chars@.len(),
                chars@ == self@,
                forall|j: int| 0 <= j < i ==> chars@[j] != '\n',
                after_first(chars@, '\n') == after_first(chars@.skip(i as int), '\n'),
            decreases chars@.len() - i,
        {
            assert(chars@.skip(i as int).drop_first() =~= chars@.skip(i + 1));
            if chars[i] == '\n' {
                let mut rest: Vec<char> = Vec::new();
                let mut k: usize = i + 1;
                while k < chars.len()
                    invariant
                        i + 1 <= k <= chars@.len(),
                        rest@ == chars@.subrange(i + 1, k as int),
                    decreases chars@.len() - k,
                {
                    rest.push(chars[k]);
                    k = k + 1;
                    assert(rest@ =~= chars@.subrange(i + 1, k as int));
                }
                assert(rest@ =~= chars@.skip(i + 1));
                return string_from_chars(&rest);
            }
            i = i + 1;
        }
        assert(chars@.skip(i as int) =~= Seq::<char>::empty());
        string_from_chars(&chars)
    }

    fn shortify(self, prefix_len: usize, suffix_len: usize, delim: &str) -> (res: String) {
        broadcast use vstd::utf8::group_utf8_lib;

        let cut = self.unicode_len() - suffix_len;
        let (prefix, _) = self.split_at(prefix_len);
        let (_, suffix) = self.split_at(cut);
        let mut out = chars_of(prefix);
        let d = chars_of(delim);
        let s = chars_of(suffix);
        let mut i: usize = 0;
        while i < d.len()
            invariant
                i <= d@.len(),
                out@ == prefix@ + d@.take(i as int),
            decreases d@.len() - i,
        {
            out.push(d[i]);
            i = i + 1;
            assert(out@ =~= prefix@ + d@.take(i as int));
        }
        let mut j: usize = 0;
        while j < s.len()
            invariant
                j <= s@.len(),
                d@ == delim@,
                out@ == prefix@ + delim@ + s@.take(j as int),
            decreases s@.len() - j,
        {
            out.push(s[j]);
            j = j + 1;
            assert(out@ =~= prefix@ + delim@ + s@.take(j as int));
        }
        proof {
            assert(d@.take(d@.len() as int) =~= d@);
            assert(s@.take(s@.len() as int) =~= s@);
            lemma_encode_concat(prefix@ + delim@, suffix@);
            lemma_encode_concat(prefix@, delim@);
        }
        string_from_chars(&out)
    }
}

} // verus!
