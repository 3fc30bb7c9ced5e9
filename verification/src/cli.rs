//! What the command line of the fuzzers needs beyond plain values: the
//! variables for the environment of the target, given as `KEY=value`
//! pairs with commas between them.

use vstd::prelude::*;

verus! {

/// Whether `c` stands at the index `i` of the text and nowhere before it.
pub open spec fn is_first_at(text: Seq<char>, c: char, i: int) -> bool {
    &&& 0 <= i < text.len()
    &&& text[i] == c
    &&& forall|k: int| 0 <= k < i ==> text[k] != c
}

/// Whether the pair is what a text of the form `KEY=value` stands for: the
/// key is what comes before the first `=`, the value what comes after it.
pub open spec fn is_key_val(text: Seq<char>, key: Seq<char>, val: Seq<char>) -> bool {
    exists|i: int|
        #[trigger] is_first_at(text, '=', i) && key == text.subrange(0, i) && val == text.subrange(
            i + 1,
            text.len() as int,
        )
}

/// The message for a text that holds no `=`.
pub open spec fn no_key_val_message(text: Seq<char>) -> Seq<char> {
    "invalid KEY=value: no `=` found in `"@ + text + "`"@
}

/// The index of the first `c` at or after `from`, or the length of the text
/// where there is none.
fn find_from(text: &str, c: char, from: usize, len: usize) -> (r: usize)
    requires
        from <= len,
        len == text@.len(),
    ensures
        from <= r <= len,
        r < len ==> text@[r as int] == c,
        forall|k: int| from <= k < r ==> text@[k] != c,
{
    let mut i: usize = from;
    while i < len
        invariant
            from <= i <= len,
            len == text@.len(),
            forall|k: int| from <= k < i ==> text@[k] != c,
        decreases len - i,
    {
        if text.get_char(i) == c {
            return i;
        }
        i = i + 1;
    }
    i
}

/// Parses one pair of the form `KEY=value`: the key is what comes before
/// the first `=`, the value all that comes after it. A text without `=` is
/// an error, whose message names the text.
pub fn parse_key_val(s: &str) -> (r: Result<(String, String), String>)
    ensures
        r is Ok <==> s@.contains('='),
        r is Ok ==> is_key_val(s@, r->Ok_0.0@, r->Ok_0.1@),
        r is Err ==> r->Err_0@ == no_key_val_message(s@),
{
    let len = s.unicode_len();
    let pos = find_from(s, '=', 0, len);
    if pos < len {
        let key = s.substring_char(0, pos).to_owned();
        let val = s.substring_char(pos + 1, len).to_owned();
        assert(is_first_at(s@, '=', pos as int));
        Ok((key, val))
    } else {
        assert(!s@.contains('=')) by {
            if s@.contains('=') {
                let i = choose|i: int| 0 <= i < s@.len() && s@[i] == '=';
                assert(s@[i] != '=');
            }
        }
        Err(String::from_str("invalid KEY=value: no `=` found in `").concat(s).concat("`"))
    }
}

/// The parts of a text between its commas, in their order. A text without
/// a comma is one part, and so is the empty text.
pub open spec fn split_commas(text: Seq<char>) -> Seq<Seq<char>>
    decreases text.len(),
{
    if exists|i: int| is_first_at(text, ',', i) {
        let i = choose|i: int| is_first_at(text, ',', i);
        seq![text.subrange(0, i)] + split_commas(text.skip(i + 1))
    } else {
        seq![text]
    }
}

/// Whether the part of index `i` is the first without `=`.
pub open spec fn is_first_without_key_val(parts: Seq<Seq<char>>, i: int) -> bool {
    &&& 0 <= i < parts.len()
    &&& !parts[i].contains('=')
    &&& forall|k: int| 0 <= k < i ==> (#[trigger] parts[k]).contains('=')
}

/// Parses a list of pairs of the form `KEY=value` with commas between
/// them, in their order. The first part without `=` is an error, see
/// [`parse_key_val`].
pub fn parse_key_val_pairs(strs: &str) -> (r: Result<Vec<(String, String)>, String>)
    ensures
        r is Ok <==> forall|k: int|
            0 <= k < split_commas(strs@).len() ==> (#[trigger] split_commas(strs@)[k]).contains('='),
        r is Ok ==> r->Ok_0@.len() == split_commas(strs@).len() && forall|k: int|
            0 <= k < r->Ok_0@.len() ==> is_key_val(
                split_commas(strs@)[k],
                (#[trigger] r->Ok_0@[k]).0@,
                r->Ok_0@[k].1@,
            ),
        r is Err ==> exists|i: int| #[trigger]
            is_first_without_key_val(split_commas(strs@), i) && r->Err_0@ == no_key_val_message(
                split_commas(strs@)[i],
            ),
{
    let len = strs.unicode_len();
    let mut v: Vec<(String, String)> = Vec::new();
    let mut start: usize = 0;
    let ghost parts = split_commas(strs@);
    let ghost mut done: Seq<Seq<char>> = Seq::empty();
    assert(strs@.skip(0) == strs@);
    loop
        invariant
            start <= len,
            len == strs@.len(),
            parts == split_commas(strs@),
            parts == done + split_commas(strs@.skip(start as int)),
            v@.len() == done.len(),
            forall|k: int|
                0 <= k < v@.len() ==> is_key_val(done[k], (#[trigger] v@[k]).0@, v@[k].1@),
            forall|k: int| 0 <= k < done.len() ==> (#[trigger] done[k]).contains('='),
        decreases len - start + 1,
    {
        let end = find_from(strs, ',', start, len);
        let part = strs.substring_char(start, end);
        let ghost rest = strs@.skip(start as int);
        proof {
            if end < len {
                assert(is_first_at(rest, ',', end - start));
                let i = choose|i: int| is_first_at(rest, ',', i);
                if i < end - start {
                    assert(rest[i] == strs@[start + i]);
                }
                if i > end - start {
                    assert(rest[end - start] != ',');
                }
                assert(i == end - start);
                assert(rest.subrange(0, i) == part@);
                assert(rest.skip(i + 1) == strs@.skip(end + 1));
            } else {
                assert(!exists|i: int| is_first_at(rest, ',', i)) by {
                    if exists|i: int| is_first_at(rest, ',', i) {
                        let i = choose|i: int| is_first_at(rest, ',', i);
                        assert(rest[i] == strs@[start + i]);
                    }
                }
                assert(rest == part@);
            }
        }
        match parse_key_val(part) {
            Ok(pair) => {
                v.push(pair);
            },
            Err(message) => {
                proof {
                    assert(parts[done.len() as int] == part@);
                    assert forall|k: int| 0 <= k < done.len() implies (#[trigger] parts[k]).contains(
                        '=',
                    ) by {
                        assert(parts[k] == done[k]);
                    }
                    assert(is_first_without_key_val(parts, done.len() as int));
                }
                return Err(message);
            },
        }
        proof {
            let before = done;
            done = done.push(part@);
            if end < len {
                assert(before + (seq![part@] + split_commas(strs@.skip(end + 1))) == done
                    + split_commas(strs@.skip(end + 1)));
            }
        }
        if end >= len {
            proof {
                assert(parts == done);
            }
            return Ok(v);
        }
        start = end + 1;
    }
}

} // verus!
