//! Reading a fetched page: the text of an element, an attribute of a tag,
//! and a number out of an attribute.
//!
//! The page is parsed by `tl` and character references are decoded by
//! `html_escape`. What they return is named here and taken on trust. The
//! text and the attributes are looked up apart, and each lookup parses the
//! page for itself, since the parser hands out views into the page that end
//! with the lookup.
//!
//! The text of an element is gathered by recursion over what is nested in
//! it. So that no page can exhaust the stack, a page is searched for a text
//! only where [`count_tags`] finds no more than [`MAX_NESTING`] tags in it.
use vstd::prelude::*;
use vstd::slice::*;
use vstd::string::*;
use vstd::utf8::*;

verus! {

/// `tl::ParseError`: what the parser says of a page that it refuses. It is
/// carried through as it is.
#[verifier::external_type_specification]
#[verifier::external_body]
pub struct ExDocumentError(tl::ParseError);

/// `std::str::Utf8Error`: what `std` says of bytes that are no UTF-8. It is
/// carried through as it is; nothing is said of what it holds.
#[verifier::external_type_specification]
#[verifier::external_body]
pub struct ExUtf8Error(std::str::Utf8Error);

/// The text inside the first element of `document`, in the order of the
/// page, that has `class` among its classes; `None` where no element has it.
pub uninterp spec fn text_of_class(document: Seq<char>, class: Seq<char>) -> Option<Seq<char>>;

/// The value of the attribute `name` on the first tag of `document`, in the
/// order of the page, that has `class` among its classes. The outer `None`
/// says that no tag has the class. The inner `None` says that the tag has no
/// such attribute, or has it without a value, or with a value that is no
/// UTF-8.
pub uninterp spec fn attribute_of_class(
    document: Seq<char>,
    class: Seq<char>,
    name: Seq<char>,
) -> Option<Option<Seq<char>>>;

/// `text` with each character reference of HTML replaced by the character
/// that it stands for.
pub uninterp spec fn entities_decoded(text: Seq<char>) -> Seq<char>;

/// `bytes` as a byte string is written out for a reader: between `b"` and
/// `"`, with what is no printable ASCII character written as an escape.
pub uninterp spec fn debug_text(bytes: Seq<u8>) -> Seq<char>;

/// The characters of an optional text.
pub open spec fn text_view(text: Option<String>) -> Option<Seq<char>> {
    match text {
        Some(text) => Some(text@),
        None => None,
    }
}

/// The most tags that a page may open and still be searched for the text of
/// an element. The text of an element is gathered by a call that goes one
/// level down the stack for each tag nested in the element, and a page has
/// no more tags nested in one another than it opens. This many levels take
/// about half of the stack that a thread has by default.
pub const MAX_NESTING: usize = 2_000;

/// Whether a tag may open at position `i` of `bytes`: there is a `<` there,
/// and neither `/`, which ends a tag, nor `!`, which starts a comment or a
/// declaration, follows it at once.
pub open spec fn opens_tag(bytes: Seq<u8>, i: int) -> bool {
    &&& 0 <= i < bytes.len()
    &&& bytes[i] == 0x3c
    &&& !(i + 1 < bytes.len() && (bytes[i + 1] == 0x2f || bytes[i + 1] == 0x21))
}

/// At how many of the first `n` positions of `bytes` a tag may open.
pub open spec fn opened_tags(bytes: Seq<u8>, n: int) -> nat
    decreases n,
{
    if n <= 0 {
        0
    } else {
        opened_tags(bytes, n - 1) + if opens_tag(bytes, n - 1) {
            1nat
        } else {
            0nat
        }
    }
}

/// At how many positions of `bytes` a tag may open: no page opens more
/// tags, whatever else it holds.
pub open spec fn tag_count(bytes: Seq<u8>) -> nat {
    opened_tags(bytes, bytes.len() as int)
}

/// Whether the parser takes a page of these bytes: it counts positions in
/// 32 bits and refuses a longer page.
pub open spec fn is_parsable(document: &str) -> bool {
    document.spec_bytes().len() <= u32::MAX
}

/// What the parser says of a page that it refuses.
pub const TOO_LONG: &'static str = "The input string length is too large to fit in a `u32`";

/// `tl::parse` with the default options, then the first handle of
/// `VDom::get_elements_by_class_name`, resolved by `NodeHandle::get`, and
/// `Node::inner_text` of that node. Trusted: the parser fails exactly on a
/// page of more than `u32::MAX` bytes, and the text is the one named by
/// [`text_of_class`]. `tl` gathers the text of an element by recursion, one
/// level for each tag that is nested in the element, and so runs out of
/// stack on a page that nests without end. A page that opens no more than
/// [`MAX_NESTING`] tags nests no deeper than that, which the stack of a
/// thread takes; only such a page is let in.
#[verifier::external_body]
pub(crate) fn first_text_by_class(document: &str, class: &str) -> (found: Result<
    Option<String>,
    tl::ParseError,
>)
    requires
        tag_count(document.spec_bytes()) <= MAX_NESTING,
    ensures
        found is Ok <==> is_parsable(document),
        found matches Ok(text) ==> text_view(text) == text_of_class(document@, class@),
{
    let dom = tl::parse(document, tl::ParserOptions::default())?;
    let parser = dom.parser();
    let node = dom.get_elements_by_class_name(class).next().and_then(|handle| handle.get(parser));
    Ok(node.map(|node| node.inner_text(parser).into_owned()))
}

/// `tl::parse` with the default options, then the first handle of
/// `VDom::get_elements_by_class_name`, resolved by `NodeHandle::get` and
/// `Node::as_tag`, and on that tag, for each of the three names,
/// `HTMLTag::attributes`, `Attributes::get` and `Bytes::try_as_utf8_str`.
/// Trusted: the parser fails exactly on a page of more than `u32::MAX`
/// bytes, and each value is the one named by [`attribute_of_class`]; where
/// no tag has the class, that is so whatever attribute is asked for.
#[verifier::external_body]
pub(crate) fn first_attributes_by_class(
    document: &str,
    class: &str,
    first: &str,
    second: &str,
    third: &str,
) -> (found: Result<Option<(Option<String>, Option<String>, Option<String>)>, tl::ParseError>)
    ensures
        found is Ok <==> is_parsable(document),
        found matches Ok(values) ==> match values {
            Some((one, two, three)) => {
                &&& attribute_of_class(document@, class@, first@) == Some(text_view(one))
                &&& attribute_of_class(document@, class@, second@) == Some(text_view(two))
                &&& attribute_of_class(document@, class@, third@) == Some(text_view(three))
            },
            None => {
                &&& attribute_of_class(document@, class@, first@) is None
                &&& attribute_of_class(document@, class@, second@) is None
                &&& attribute_of_class(document@, class@, third@) is None
            },
        },
{
    let dom = tl::parse(document, tl::ParserOptions::default())?;
    let parser = dom.parser();
    let node = dom.get_elements_by_class_name(class).next().and_then(|handle| handle.get(parser));
    let read = |tag: &tl::HTMLTag, name: &str|
        tag.attributes().get(name.as_bytes()).flatten().and_then(tl::Bytes::try_as_utf8_str).map(
            String::from,
        );
    Ok(
        node.and_then(tl::Node::as_tag).map(
            |tag| (read(tag, first), read(tag, second), read(tag, third)),
        ),
    )
}

/// `Display` of `tl::ParseError`. Trusted: the error has one variant, for a
/// page that is too long, and its text is [`TOO_LONG`].
#[verifier::external_body]
pub(crate) fn document_error_text(err: &tl::ParseError) -> (text: String)
    ensures
        text@ == TOO_LONG@,
{
    err.to_string()
}

/// `html_escape::decode_html_entities`. Trusted: the text is the one named
/// by [`entities_decoded`].
#[verifier::external_body]
pub(crate) fn decode_entities(text: &str) -> (decoded: String)
    ensures
        decoded@ == entities_decoded(text@),
{
    html_escape::decode_html_entities(text).into_owned()
}

/// `std::str::from_utf8`. Trusted: it succeeds exactly on valid UTF-8, and
/// the text then has the bytes that it was given.
#[verifier::external_body]
pub(crate) fn utf8_text(bytes: &[u8]) -> (text: Result<&str, std::str::Utf8Error>)
    ensures
        text is Ok <==> valid_utf8(bytes@),
        text matches Ok(text) ==> text.spec_bytes() == bytes@,
{
    std::str::from_utf8(bytes)
}

/// `Display` of `std::str::Utf8Error`. Nothing is said of the text.
#[verifier::external_body]
pub(crate) fn utf8_error_text(err: &std::str::Utf8Error) -> (text: String) {
    err.to_string()
}

/// `Debug` of `bytes::Bytes`, which is how a response hands over its body,
/// made of a copy of `bytes` by `Bytes::copy_from_slice`. Trusted: the text
/// is the one named by [`debug_text`].
#[verifier::external_body]
pub(crate) fn bytes_debug_text(bytes: &[u8]) -> (text: String)
    ensures
        text@ == debug_text(bytes@),
{
    format!("{:#?}", actix_web::web::Bytes::copy_from_slice(bytes))
}

/// Count the positions of `text` at which a tag may open.
pub fn count_tags(text: &str) -> (count: usize)
    ensures
        count == tag_count(text.spec_bytes()),
{
    let bytes = text.as_bytes();
    let n = bytes.len();
    let mut count: usize = 0;
    let mut i: usize = 0;
    while i < n
        invariant
            i <= n,
            n == bytes@.len(),
            count <= i,
            count == opened_tags(bytes@, i as int),
        decreases n - i,
    {
        let followed = i + 1 < n && (bytes[i + 1] == 0x2f || bytes[i + 1] == 0x21);
        if bytes[i] == 0x3c && !followed {
            count = count + 1;
        }
        i = i + 1;
    }
    count
}

/// Whether `c` is one of the digits `0` to `9`.
pub open spec fn is_digit(c: char) -> bool {
    '0' <= c <= '9'
}

/// Whether `text` holds digits only.
pub open spec fn all_digits(text: Seq<char>) -> bool {
    forall|i: int| 0 <= i < text.len() ==> is_digit(#[trigger] text[i])
}

/// The number that a run of digits writes in base ten.
pub open spec fn digits_value(digits: Seq<char>) -> nat
    decreases digits.len(),
{
    if digits.len() == 0 {
        0
    } else {
        (digits_value(digits.drop_last()) * 10 + (digits.last() as u32 - 0x30)) as nat
    }
}

/// The number that `text` writes: an optional sign, `+` or `-`, and then one
/// digit or more, which together name a number that fits in 32 bits.
/// Anything else, a blank or a thousands mark among it, writes no number.
pub open spec fn decimal_i32(text: Seq<char>) -> Option<i32> {
    let negative = text.len() > 0 && text[0] == '-';
    let signed = text.len() > 0 && (text[0] == '-' || text[0] == '+');
    let digits = if signed {
        text.skip(1)
    } else {
        text
    };
    let value = if negative {
        -(digits_value(digits) as int)
    } else {
        digits_value(digits) as int
    };
    if digits.len() > 0 && all_digits(digits) && i32::MIN <= value <= i32::MAX {
        Some(value as i32)
    } else {
        None
    }
}

/// A run of digits writes no less than any run that it starts with.
proof fn lemma_digits_value_grows(digits: Seq<char>, k: int)
    requires
        0 <= k <= digits.len(),
        all_digits(digits),
    ensures
        digits_value(digits.take(k)) <= digits_value(digits),
    decreases digits.len() - k,
{
    if k == digits.len() {
        assert(digits.take(k) =~= digits);
    } else {
        lemma_digits_value_grows(digits, k + 1);
        assert(digits.take(k + 1).drop_last() =~= digits.take(k));
        assert(is_digit(digits[k]));
    }
}

/// Read a whole number out of `text`, as `str::parse::<i32>` does.
pub fn parse_i32(text: &str) -> (number: Option<i32>)
    ensures
        number == decimal_i32(text@),
{
    if !text.is_ascii() {
        proof {
            // Every digit and both signs are ASCII, so something here is neither.
            assert(exists|i: int| 0 <= i < text@.len() && !('\0' <= #[trigger] text@[i] <= '\u{7f}')) by {
                if !(exists|i: int| 0 <= i < text@.len() && !('\0' <= #[trigger] text@[i] <= '\u{7f}')) {
                    assert(is_ascii_chars(text@));
                }
            }
            let bad = choose|i: int| 0 <= i < text@.len() && !('\0' <= #[trigger] text@[i] <= '\u{7f}');
            let signed = text@[0] == '-' || text@[0] == '+';
            let digits = if signed {
                text@.skip(1)
            } else {
                text@
            };
            let at = if signed {
                bad - 1
            } else {
                bad
            };
            assert(digits[at] == text@[bad]);
            assert(!is_digit(digits[at]));
        }
        return None;
    }
    let bytes = text.as_bytes();
    proof {
        is_ascii_spec_bytes(text);
    }
    let n = bytes.len();
    if n == 0 {
        return None;
    }
    let negative = bytes[0] == 0x2d;
    let signed = negative || bytes[0] == 0x2b;
    let start: usize = if signed {
        1
    } else {
        0
    };
    proof {
        assert(bytes@[0] == text@[0] as u8 && text@[0] <= '\u{7f}');
        assert(negative == (text@[0] == '-'));
        assert(signed == (text@[0] == '-' || text@[0] == '+'));
    }
    if start == n {
        return None;
    }
    let ghost digits = if signed {
        text@.skip(1)
    } else {
        text@
    };
    let mut value: i64 = 0;
    let mut i: usize = start;
    while i < n
        invariant
            start <= i <= n,
            n == bytes@.len(),
            n == text@.len(),
            start == if signed {
                1usize
            } else {
                0usize
            },
            negative == (text@[0] == '-'),
            signed == (text@[0] == '-' || text@[0] == '+'),
            digits == if signed {
                text@.skip(1)
            } else {
                text@
            },
            forall|j: int|
                0 <= j < n ==> bytes@[j] == #[trigger] text@[j] as u8 && '\0' <= text@[j]
                    <= '\u{7f}',
            all_digits(digits.take(i - start)),
            value == digits_value(digits.take(i - start)),
            0 <= value <= 0x8000_0000,
        decreases n - i,
    {
        let b = bytes[i];
        proof {
            assert(digits[i - start] == text@[i as int]);
        }
        if b < 0x30 || b > 0x39 {
            assert(!is_digit(digits[i - start]));
            return None;
        }
        let digit: i64 = (b - 0x30) as i64;
        proof {
            assert(digits.take(i + 1 - start).drop_last() =~= digits.take(i - start));
            assert(digits.take(i + 1 - start).last() == digits[i - start]);
            assert(is_digit(digits[i - start]));
            assert(all_digits(digits.take(i + 1 - start))) by {
                assert forall|j: int| 0 <= j < i + 1 - start implies is_digit(
                    #[trigger] digits.take(i + 1 - start)[j],
                ) by {
                    if j < i - start {
                        assert(digits.take(i - start)[j] == digits[j]);
                    }
                }
            }
        }
        let bigger: i64 = value * 10 + digit;
        if bigger > 0x8000_0000 {
            proof {
                // What follows can only make the number larger.
                if all_digits(digits) {
                    lemma_digits_value_grows(digits, i + 1 - start);
                }
            }
            return None;
        }
        value = bigger;
        i = i + 1;
    }
    proof {
        assert(digits.take(n - start) =~= digits);
    }
    if negative {
        Some((-value) as i32)
    } else if value > 0x7fff_ffff {
        None
    } else {
        Some(value as i32)
    }
}

} // verus!
