//! Text helpers shared by the other modules: the title that stands in for a
//! page until it reports its own, and numbers written out in decimal.

use vstd::prelude::*;

verus! {

/// Calls `String::push`, which appends one character to the end of the
/// string.
#[verifier::external_body]
pub(crate) fn push_char(text: &mut String, c: char)
    ensures
        final(text)@ == old(text)@.push(c),
{
    text.push(c);
}

/// Position of the first `/` in `text`, or its length if it holds none.
pub open spec fn first_slash(text: Seq<char>) -> int
    decreases text.len(),
{
    if text.len() == 0 {
        0
    } else if text[0] == '/' {
        0
    } else {
        1 + first_slash(text.drop_first())
    }
}

/// The `index`-th of the pieces that `text` falls into when it is cut at
/// every `/`, counted from zero; `None` if there are not that many pieces.
pub open spec fn segment(text: Seq<char>, index: nat) -> Option<Seq<char>>
    decreases index,
{
    let cut = first_slash(text);
    if index == 0 {
        Some(text.subrange(0, cut))
    } else if cut == text.len() {
        None
    } else {
        segment(text.subrange(cut + 1, text.len() as int), (index - 1) as nat)
    }
}

/// The title that a page goes by until it reports its own: the third piece of
/// its address when cut at `/`, which for `scheme://host/path` is the host,
/// and `New Tab` for an address with fewer pieces.
pub open spec fn title_of(url: Seq<char>) -> Seq<char> {
    match segment(url, 2) {
        Some(host) => host,
        None => "New Tab"@,
    }
}

proof fn lemma_first_slash_bounds(text: Seq<char>)
    ensures
        0 <= first_slash(text) <= text.len(),
        first_slash(text) < text.len() ==> text[first_slash(text)] == '/',
        forall|i: int| 0 <= i < first_slash(text) ==> text[i] != '/',
    decreases text.len(),
{
    if text.len() > 0 && text[0] != '/' {
        lemma_first_slash_bounds(text.drop_first());
        assert forall|i: int| 0 <= i < first_slash(text) implies text[i] != '/' by {
            if i > 0 {
                assert(text[i] == text.drop_first()[i - 1]);
            }
        }
    }
}

/// What is left to find of the third piece once `seen` slashes have gone by,
/// `host` has been collected after the second of them, and `rest` is still
/// unread.
spec fn third_piece(seen: int, host: Seq<char>, rest: Seq<char>) -> Option<Seq<char>> {
    if seen < 2 {
        segment(rest, (2 - seen) as nat)
    } else if seen == 2 {
        Some(host + rest.subrange(0, first_slash(rest)))
    } else {
        Some(host)
    }
}

/// Reading one more character keeps `third_piece` as it is.
proof fn lemma_third_piece_step(seen: int, host: Seq<char>, rest: Seq<char>)
    requires
        0 <= seen <= 3,
        seen < 2 ==> host.len() == 0,
        rest.len() > 0,
    ensures
        third_piece(seen, host, rest) == (if seen == 3 {
            third_piece(3, host, rest.drop_first())
        } else if rest[0] == '/' {
            third_piece(seen + 1, host, rest.drop_first())
        } else if seen == 2 {
            third_piece(2, host.push(rest[0]), rest.drop_first())
        } else {
            third_piece(seen, host, rest.drop_first())
        }),
{
    let tail = rest.drop_first();
    lemma_first_slash_bounds(rest);
    lemma_first_slash_bounds(tail);
    if seen == 3 {
    } else if rest[0] == '/' {
        assert(rest.subrange(1, rest.len() as int) == tail);
        if seen == 2 {
            assert(host + rest.subrange(0, 0) == host);
        } else if seen == 1 {
            assert(host + tail.subrange(0, first_slash(tail)) == tail.subrange(
                0,
                first_slash(tail),
            ));
        }
    } else {
        let cut = first_slash(rest);
        assert(cut == 1 + first_slash(tail));
        if seen == 2 {
            assert(host + rest.subrange(0, cut) == host.push(rest[0]) + tail.subrange(
                0,
                cut - 1,
            ));
        } else {
            if cut < rest.len() {
                assert(rest.subrange(cut + 1, rest.len() as int) == tail.subrange(
                    cut,
                    tail.len() as int,
                ));
            }
        }
    }
}

/// The title that a page goes by until it reports its own: the host of an
/// address of the form `scheme://host/path`, and `New Tab` where the address
/// has fewer than three pieces between slashes.
pub fn extract_title(url: &str) -> (title: String)
    ensures
        title@ == title_of(url@),
{
    let mut seen: usize = 0;
    let mut host = String::new();
    assert(url@.subrange(0, url@.len() as int) == url@);
    for c in it: url.chars()
        invariant
            it.seq() == url@,
            0 <= seen <= 3,
            seen < 2 ==> host@.len() == 0,
            segment(url@, 2) == third_piece(
                seen as int,
                host@,
                url@.subrange(it.index(), url@.len() as int),
            ),
    {
        proof {
            let rest = url@.subrange(it.index(), url@.len() as int);
            lemma_third_piece_step(seen as int, host@, rest);
            assert(rest.drop_first() == url@.subrange(it.index() + 1, url@.len() as int));
            assert(rest[0] == c);
        }
        if seen < 3 {
            if c == '/' {
                seen += 1;
            } else if seen == 2 {
                push_char(&mut host, c);
            }
        }
    }
    proof {
        let rest = url@.subrange(url@.len() as int, url@.len() as int);
        assert(rest.len() == 0);
        assert(host@ + rest.subrange(0, 0) == host@);
    }
    if seen >= 2 {
        host
    } else {
        "New Tab".to_owned()
    }
}

/// The character that stands for a digit.
pub open spec fn digit_char(digit: nat) -> char
    recommends
        digit < 10,
{
    if digit == 0 {
        '0'
    } else if digit == 1 {
        '1'
    } else if digit == 2 {
        '2'
    } else if digit == 3 {
        '3'
    } else if digit == 4 {
        '4'
    } else if digit == 5 {
        '5'
    } else if digit == 6 {
        '6'
    } else if digit == 7 {
        '7'
    } else if digit == 8 {
        '8'
    } else {
        '9'
    }
}

/// `number` written in decimal, without leading zeros.
pub open spec fn decimal(number: nat) -> Seq<char>
    decreases number,
{
    if number < 10 {
        seq![digit_char(number)]
    } else {
        decimal(number / 10).push(digit_char(number % 10))
    }
}

fn digit_of(digit: usize) -> (c: char)
    requires
        digit < 10,
    ensures
        c == digit_char(digit as nat),
{
    if digit == 0 {
        '0'
    } else if digit == 1 {
        '1'
    } else if digit == 2 {
        '2'
    } else if digit == 3 {
        '3'
    } else if digit == 4 {
        '4'
    } else if digit == 5 {
        '5'
    } else if digit == 6 {
        '6'
    } else if digit == 7 {
        '7'
    } else if digit == 8 {
        '8'
    } else {
        '9'
    }
}

/// `number` written in decimal, appended to `text`.
pub fn push_decimal(text: &mut String, number: usize)
    ensures
        final(text)@ == old(text)@ + decimal(number as nat),
    decreases number,
{
    if number >= 10 {
        push_decimal(text, number / 10);
    }
    push_char(text, digit_of(number % 10));
    proof {
        if number >= 10 {
            assert(old(text)@ + decimal(number as nat) == (old(text)@ + decimal(
                (number / 10) as nat,
            )).push(digit_char((number % 10) as nat)));
        } else {
            assert(old(text)@ + seq![digit_char(number as nat)] == old(text)@.push(
                digit_char(number as nat),
            ));
        }
    }
}

} // verus!
