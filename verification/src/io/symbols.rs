use vstd::prelude::*;
use barcoders::sym::codabar::Codabar;
use barcoders::sym::code39::Code39;
use barcoders::sym::ean13::EAN13;
use barcoders::sym::ean8::EAN8;
use barcoders::sym::tf::TF;

verus! {

/// The error of the `barcoders` crate; nothing is read from it.
#[verifier::external_type_specification]
#[verifier::external_body]
pub struct ExSymbolError(barcoders::error::Error);

/// The bars `barcoders` draws for `text` as EAN-13 (and so as UPC-A),
/// one byte per module; nothing where it refuses the text.
pub uninterp spec fn ean13_symbol(text: Seq<char>) -> Option<Seq<u8>>;

/// The bars `barcoders` draws for `text` as EAN-8.
pub uninterp spec fn ean8_symbol(text: Seq<char>) -> Option<Seq<u8>>;

/// The bars `barcoders` draws for `text` as Code 39.
pub uninterp spec fn code39_symbol(text: Seq<char>) -> Option<Seq<u8>>;

/// The bars `barcoders` draws for `text` as interleaved 2 of 5.
pub uninterp spec fn itf_symbol(text: Seq<char>) -> Option<Seq<u8>>;

/// The bars `barcoders` draws for `text` as Codabar.
pub uninterp spec fn codabar_symbol(text: Seq<char>) -> Option<Seq<u8>>;

/// The view of what a symbol encoder hands back, its error forgotten.
pub open spec fn symbol_view(drawn: Result<Vec<u8>, barcoders::error::Error>) -> Option<Seq<u8>> {
    match drawn {
        Ok(bars) => Some(bars@),
        Err(_) => None,
    }
}

/// `EAN13::new` followed by `EAN13::encode`. Trusted: the result is the
/// crate's, named by `ean13_symbol`.
#[verifier::external_body]
pub(crate) fn ean13_bars(text: &str) -> (drawn: Result<Vec<u8>, barcoders::error::Error>)
    ensures
        symbol_view(drawn) == ean13_symbol(text@),
{
    match EAN13::new(text) {
        Ok(code) => Ok(code.encode()),
        Err(refusal) => Err(refusal),
    }
}

/// `EAN8::new` followed by `EAN8::encode`. Trusted: the result is the
/// crate's, named by `ean8_symbol`.
#[verifier::external_body]
pub(crate) fn ean8_bars(text: &str) -> (drawn: Result<Vec<u8>, barcoders::error::Error>)
    ensures
        symbol_view(drawn) == ean8_symbol(text@),
{
    match EAN8::new(text) {
        Ok(code) => Ok(code.encode()),
        Err(refusal) => Err(refusal),
    }
}

/// `Code39::new` followed by `Code39::encode`. Trusted: the result is the
/// crate's, named by `code39_symbol`.
#[verifier::external_body]
pub(crate) fn code39_bars(text: &str) -> (drawn: Result<Vec<u8>, barcoders::error::Error>)
    ensures
        symbol_view(drawn) == code39_symbol(text@),
{
    match Code39::new(text) {
        Ok(code) => Ok(code.encode()),
        Err(refusal) => Err(refusal),
    }
}

/// `TF::interleaved` followed by `TF::encode`. Trusted: the result is the
/// crate's, named by `itf_symbol`. The crate adds a check digit to a text
/// of odd length and sums the digits in eight bits to find it, so texts
/// whose sum does not fit are kept away from it.
#[verifier::external_body]
pub(crate) fn itf_bars(text: &str) -> (drawn: Result<Vec<u8>, barcoders::error::Error>)
    requires
        check_digit_fits(text@),
    ensures
        symbol_view(drawn) == itf_symbol(text@),
{
    match TF::interleaved(text) {
        Ok(code) => Ok(code.encode()),
        Err(refusal) => Err(refusal),
    }
}

/// `Codabar::new` followed by `Codabar::encode`. Trusted: the result is
/// the crate's, named by `codabar_symbol`.
#[verifier::external_body]
pub(crate) fn codabar_bars(text: &str) -> (drawn: Result<Vec<u8>, barcoders::error::Error>)
    ensures
        symbol_view(drawn) == codabar_symbol(text@),
{
    match Codabar::new(text) {
        Ok(code) => Ok(code.encode()),
        Err(refusal) => Err(refusal),
    }
}

pub open spec fn is_digit(c: char) -> bool {
    '0' <= c <= '9'
}

pub open spec fn all_digits(text: Seq<char>) -> bool {
    forall|i: int| 0 <= i < text.len() ==> is_digit(#[trigger] text[i])
}

/// The sum from which a check digit is taken: every digit at an even
/// place, counted from zero, weighs three, every other one.
pub open spec fn weighted_sum(text: Seq<char>) -> int
    decreases text.len(),
{
    if text.len() == 0 {
        0
    } else {
        let place = text.len() - 1;
        let weight: int = if place % 2 == 0 {
            3
        } else {
            1
        };
        weighted_sum(text.drop_last()) + weight * (text.last() as int - '0' as int)
    }
}

/// Whether the check digit of `text`, where one is due, can be computed in
/// eight bits. One is due for a text of digits of odd length.
pub open spec fn check_digit_fits(text: Seq<char>) -> bool {
    all_digits(text) && text.len() % 2 == 1 ==> weighted_sum(text) <= 255
}

/// On a text of digits the sum of a prefix never exceeds the sum of the
/// whole.
pub proof fn lemma_weighted_sum_grows(text: Seq<char>, upto: int)
    requires
        all_digits(text),
        0 <= upto <= text.len(),
    ensures
        0 <= weighted_sum(text.take(upto)) <= weighted_sum(text),
    decreases text.len() - upto,
{
    if upto == text.len() {
        assert(text.take(upto) =~= text);
        lemma_weighted_sum_is_natural(text);
    } else {
        lemma_weighted_sum_grows(text, upto + 1);
        assert(text.take(upto + 1).drop_last() =~= text.take(upto));
        assert(is_digit(text[upto]));
        assert(text.take(upto + 1).last() == text[upto]);
        lemma_weighted_sum_is_natural(text.take(upto));
    }
}

/// On a text of digits the sum is not negative.
pub proof fn lemma_weighted_sum_is_natural(text: Seq<char>)
    requires
        all_digits(text),
    ensures
        0 <= weighted_sum(text),
    decreases text.len(),
{
    if text.len() > 0 {
        assert(is_digit(text[text.len() - 1]));
        lemma_weighted_sum_is_natural(text.drop_last());
    }
}

/// Decides `check_digit_fits`.
pub fn has_fitting_check_digit(text: &str) -> (fits: bool)
    ensures
        fits == check_digit_fits(text@),
{
    if !text.is_ascii() {
        proof {
            if all_digits(text@) {
                assert forall|i: int| 0 <= i < text@.len() implies '\0' <= #[trigger] text@[i]
                    <= '\u{7f}' by {
                    assert(is_digit(text@[i]));
                }
            }
        }
        return true;
    }
    let bytes = text.as_bytes();
    proof {
        vstd::string::is_ascii_spec_bytes(text);
    }
    let n = bytes.len();
    if n % 2 == 0 {
        return true;
    }
    let mut i: usize = 0;
    while i < n
        invariant
            0 <= i <= n,
            n == bytes@.len(),
            n == text@.len(),
            vstd::utf8::is_ascii_chars(text@),
            forall|k: int| 0 <= k < n ==> bytes@[k] == (#[trigger] text@[k]) as u8,
            forall|k: int| 0 <= k < i ==> is_digit(#[trigger] text@[k]),
        decreases n - i,
    {
        let b = bytes[i];
        if b < 48 || b > 57 {
            proof {
                assert('\0' <= text@[i as int] <= '\u{7f}');
                assert(!is_digit(text@[i as int]));
            }
            return true;
        }
        proof {
            assert('\0' <= text@[i as int] <= '\u{7f}');
        }
        i = i + 1;
    }
    let mut sum: u32 = 0;
    let mut j: usize = 0;
    while j < n
        invariant
            0 <= j <= n,
            n == bytes@.len(),
            n == text@.len(),
            n % 2 == 1,
            vstd::utf8::is_ascii_chars(text@),
            forall|k: int| 0 <= k < n ==> bytes@[k] == (#[trigger] text@[k]) as u8,
            all_digits(text@),
            sum == weighted_sum(text@.take(j as int)),
            sum <= 255,
        decreases n - j,
    {
        let b = bytes[j];
        proof {
            assert(text@.take(j as int + 1).drop_last() =~= text@.take(j as int));
            assert(text@.take(j as int + 1).last() == text@[j as int]);
            assert('\0' <= text@[j as int] <= '\u{7f}');
            assert(is_digit(text@[j as int]));
        }
        let weight: u32 = if j % 2 == 0 {
            3
        } else {
            1
        };
        let next: u32 = sum + weight * ((b - 48) as u32);
        if next > 255 {
            proof {
                lemma_weighted_sum_grows(text@, j as int + 1);
            }
            return false;
        }
        sum = next;
        j = j + 1;
    }
    proof {
        assert(text@.take(n as int) =~= text@);
    }
    true
}

} // verus!
