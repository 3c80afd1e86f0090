//! Recognition of `data:` URLs.

use vstd::prelude::*;

verus! {

/// The characters of the `data:` scheme marker, in lower case.
pub open spec fn data_url_prefix() -> Seq<char> {
    seq!['d', 'a', 't', 'a', ':']
}

/// The code point of `c` with ASCII upper-case letters mapped to lower case,
/// every other character left as it is.
pub open spec fn ascii_lowercase_code(c: char) -> u32 {
    let v = c as u32;
    if 65 <= v <= 90 {
        (v + 32) as u32
    } else {
        v
    }
}

/// Two characters are equal once ASCII letters are folded to lower case.
pub open spec fn chars_eq_ignore_ascii_case(a: char, b: char) -> bool {
    ascii_lowercase_code(a) == ascii_lowercase_code(b)
}

/// `url` starts with the `data:` marker, compared without regard to ASCII case.
pub open spec fn spec_is_data_url(url: Seq<char>) -> bool {
    &&& url.len() >= data_url_prefix().len()
    &&& forall|i: int|
        0 <= i < data_url_prefix().len() ==> chars_eq_ignore_ascii_case(
            #[trigger] url[i],
            data_url_prefix()[i],
        )
}

proof fn lemma_letter_ignoring_case(c: char, lower: char, upper: char)
    requires
        65 <= upper as u32 <= 90,
        lower as u32 == upper as u32 + 32,
    ensures
        chars_eq_ignore_ascii_case(c, lower) == (c == lower || c == upper),
{
    let v = c as u32;
    if 65 <= v <= 90 {
        assert(ascii_lowercase_code(c) == v + 32);
        if v + 32 == lower as u32 {
            assert(v == upper as u32);
        }
    } else {
        assert(ascii_lowercase_code(c) == v);
    }
}

proof fn lemma_symbol_ignoring_case(c: char, symbol: char)
    requires
        !(65 <= symbol as u32 <= 90),
        !(97 <= symbol as u32 <= 122),
    ensures
        chars_eq_ignore_ascii_case(c, symbol) == (c == symbol),
{
    let v = c as u32;
    if 65 <= v <= 90 {
        assert(ascii_lowercase_code(c) == v + 32);
    } else {
        assert(ascii_lowercase_code(c) == v);
        if v == symbol as u32 {
            assert(c == symbol);
        }
    }
}

/// The `data:` marker spelled out: `d`, `a`, `t`, `a` in either case, then `:`.
pub proof fn lemma_data_url_marker_spelled_out(url: Seq<char>)
    ensures
        spec_is_data_url(url) == (url.len() >= 5 && (url[0] == 'd' || url[0] == 'D') && (url[1]
            == 'a' || url[1] == 'A') && (url[2] == 't' || url[2] == 'T') && (url[3] == 'a' || url[3]
            == 'A') && url[4] == ':'),
{
    if url.len() >= 5 {
        assert(data_url_prefix()[0] == 'd' && data_url_prefix()[1] == 'a' && data_url_prefix()[2]
            == 't' && data_url_prefix()[3] == 'a' && data_url_prefix()[4] == ':');
        lemma_letter_ignoring_case(url[0], 'd', 'D');
        lemma_letter_ignoring_case(url[1], 'a', 'A');
        lemma_letter_ignoring_case(url[2], 't', 'T');
        lemma_letter_ignoring_case(url[3], 'a', 'A');
        lemma_symbol_ignoring_case(url[4], ':');
        assert(chars_eq_ignore_ascii_case(url[4], data_url_prefix()[4]) == (url[4] == ':'));
    }
}

fn char_eq_ignore_ascii_case(a: char, b: char) -> (res: bool)
    ensures
        res == chars_eq_ignore_ascii_case(a, b),
{
    let va = a as u32;
    let vb = b as u32;
    let la = if 65 <= va && va <= 90 {
        va + 32
    } else {
        va
    };
    let lb = if 65 <= vb && vb <= 90 {
        vb + 32
    } else {
        vb
    };
    la == lb
}

/// Whether `image_url` starts with `data:`, ignoring ASCII case.
pub fn is_data_url(image_url: &str) -> (res: bool)
    ensures
        res == spec_is_data_url(image_url@),
        res == (image_url@.len() >= 5 && (image_url@[0] == 'd' || image_url@[0] == 'D') && (
        image_url@[1] == 'a' || image_url@[1] == 'A') && (image_url@[2] == 't' || image_url@[2]
            == 'T') && (image_url@[3] == 'a' || image_url@[3] == 'A') && image_url@[4] == ':'),
{
    broadcast use vstd::string::group_string_axioms;

    let prefix: [char; 5] = ['d', 'a', 't', 'a', ':'];
    assert(prefix@ == data_url_prefix());
    let mut chars = image_url.chars();
    let mut i: usize = 0;
    while i < 5
        invariant
            0 <= i <= 5,
            prefix@ == data_url_prefix(),
            i <= image_url@.len(),
            vstd::std_specs::iter::IteratorSpec::remaining(&chars) == image_url@.skip(i as int),
            forall|j: int|
                0 <= j < i ==> chars_eq_ignore_ascii_case(
                    #[trigger] image_url@[j],
                    data_url_prefix()[j],
                ),
        decreases 5 - i,
    {
        match chars.next() {
            Some(c) => {
                assert(c == image_url@[i as int]);
                if !char_eq_ignore_ascii_case(c, prefix[i]) {
                    proof {
                        lemma_data_url_marker_spelled_out(image_url@);
                    }
                    return false;
                }
            },
            None => {
                proof {
                    lemma_data_url_marker_spelled_out(image_url@);
                }
                return false;
            },
        }
        i = i + 1;
    }
    proof {
        lemma_data_url_marker_spelled_out(image_url@);
    }
    true
}

} // verus!
