//! Cup records as the pages see them: what a form hands in, what is handed
//! back, and the number of a cup as the text that its code carries.

use vstd::prelude::*;
use vstd::utf8::encode_utf8;
use crate::error::QrError;
use crate::render::{generate_qr_code, generated_image};
use crate::tables::EccLevel;

verus! {

/// What is sent to make a cup: the owner's key and the cup's name.
#[derive(Debug)]
pub struct CreateCupApiForm {
    owner: i64,
    name: String,
}

/// What is sent back for a cup that was made.
#[derive(Debug)]
pub struct CreateCupApiResponse {
    pub id: i32,
    pub owner: String,
    pub name: String,
    pub active: bool,
}

/// What the page's form hands in to make a cup: its name.
#[derive(Debug)]
pub struct CreateCupForm {
    name: String,
}

/// What the page's form hands in to find a cup: a picture of its code, as
/// the bytes of an image file.
#[derive(Debug)]
pub struct ScanCupForm {
    file: Vec<u8>,
}

/// A cup that is about to be stored. It has no number yet.
#[derive(Debug)]
pub struct NewCup {
    pub owner: i64,
    pub name: String,
    pub active: bool,
}

impl CreateCupApiForm {
    /// A form for a cup of the given owner and name.
    pub fn new(owner: i64, name: String) -> (form: CreateCupApiForm)
        ensures
            form.owner_key() == owner,
            form.name_text() == name@,
    {
        CreateCupApiForm { owner, name }
    }

    /// The owner's key.
    pub closed spec fn owner_key(&self) -> i64 {
        self.owner
    }

    /// The cup's name.
    pub closed spec fn name_text(&self) -> Seq<char> {
        self.name@
    }

    /// The owner's key.
    pub fn owner(&self) -> (owner: i64)
        ensures
            owner == self.owner_key(),
    {
        self.owner
    }

    /// The cup's name.
    pub fn name(&self) -> (name: &String)
        ensures
            name@ == self.name_text(),
    {
        &self.name
    }

    /// The cup that the form asks for. A new cup is not active.
    pub fn into_cup(self) -> (cup: NewCup)
        ensures
            cup.owner == self.owner_key(),
            cup.name@ == self.name_text(),
            !cup.active,
    {
        NewCup { owner: self.owner, name: self.name, active: false }
    }
}

impl CreateCupForm {
    /// A form for a cup of the given name.
    pub fn new(name: String) -> (form: CreateCupForm)
        ensures
            form.name_text() == name@,
    {
        CreateCupForm { name }
    }

    /// The cup's name.
    pub closed spec fn name_text(&self) -> Seq<char> {
        self.name@
    }

    /// The cup's name.
    pub fn name(&self) -> (name: &String)
        ensures
            name@ == self.name_text(),
    {
        &self.name
    }

    /// The cup that the form asks for, owned by the user who sent it. A new
    /// cup is not active.
    pub fn into_cup(self, owner: i64) -> (cup: NewCup)
        ensures
            cup.owner == owner,
            cup.name@ == self.name_text(),
            !cup.active,
    {
        NewCup { owner, name: self.name, active: false }
    }
}

impl ScanCupForm {
    /// A form with the bytes of the image file that was sent.
    pub fn new(file: Vec<u8>) -> (form: ScanCupForm)
        ensures
            form.content() == file@,
    {
        ScanCupForm { file }
    }

    /// The bytes of the image file.
    pub closed spec fn content(&self) -> Seq<u8> {
        self.file@
    }

    /// The bytes of the image file.
    pub fn file(&self) -> (file: &Vec<u8>)
        ensures
            file@ == self.content(),
    {
        &self.file
    }
}

/// Why the picture in a form leads to no cup.
#[derive(Clone, Copy, Debug, PartialEq, Eq, Structural)]
pub enum ScanCupError {
    /// No text could be read from the picture.
    Unreadable(QrError),
    /// The text that was read is not the number of a cup.
    NotANumber,
}

/// What a page answers.
#[derive(Clone, Copy, Debug, PartialEq, Eq, Structural)]
pub enum Reply {
    /// Go to the page where one signs in.
    SignIn,
    /// Show the page that was asked for.
    Page,
    /// Go to the page of the cup with this number.
    Cup(i32),
    /// There is no such cup.
    NotFound,
}

/// The code of the character `0`.
pub const ZERO: u8 = 48;

/// The code of the character `+`.
pub const PLUS: u8 = 43;

/// The code of the character `-`.
pub const MINUS: u8 = 45;

/// The decimal digits of `n`, the most significant first, with no leading
/// zero but for zero itself.
pub open spec fn decimal(n: nat) -> Seq<u8>
    decreases n,
{
    if n < 10 {
        seq![(ZERO + n) as u8]
    } else {
        decimal(n / 10).push((ZERO + n % 10) as u8)
    }
}

/// The number of a cup as text: its decimal digits, after a minus sign
/// where it is negative.
pub open spec fn id_text(id: int) -> Seq<u8> {
    if id < 0 {
        seq![MINUS] + decimal((-id) as nat)
    } else {
        decimal(id as nat)
    }
}

/// Whether `byte` is the code of a decimal digit.
pub open spec fn is_digit(byte: u8) -> bool {
    ZERO <= byte <= ZERO + 9
}

/// Whether all of `text` is decimal digits.
pub open spec fn all_digits(text: Seq<u8>) -> bool {
    forall|i: int| 0 <= i < text.len() ==> is_digit(#[trigger] text[i])
}

/// The number that decimal digits spell.
pub open spec fn digits_value(digits: Seq<u8>) -> nat
    decreases digits.len(),
{
    if digits.len() == 0 {
        0
    } else {
        10 * digits_value(digits.drop_last()) + (digits.last() - ZERO) as nat
    }
}

/// The length of the sign at the start of `text`: 1 where it starts with
/// `+` or `-`.
pub open spec fn sign_len(text: Seq<u8>) -> int {
    if text.len() > 0 && (text[0] == PLUS || text[0] == MINUS) {
        1
    } else {
        0
    }
}

/// The number that `text` spells: an optional sign, then one or more
/// decimal digits and nothing else, where the number lies in the range of
/// `i32`.
pub open spec fn parsed_id(text: Seq<u8>) -> Option<int> {
    let digits = text.skip(sign_len(text));
    let value = if text.len() > 0 && text[0] == MINUS {
        -digits_value(digits)
    } else {
        digits_value(digits) as int
    };
    if digits.len() > 0 && all_digits(digits) && i32::MIN <= value <= i32::MAX {
        Some(value)
    } else {
        None
    }
}

/// The decimal digits of a number are digits, at least one, and spell the
/// number.
pub proof fn lemma_decimal_spells(n: nat)
    ensures
        decimal(n).len() > 0,
        all_digits(decimal(n)),
        digits_value(decimal(n)) == n,
    decreases n,
{
    if n >= 10 {
        lemma_decimal_spells(n / 10);
        let shorter = decimal(n / 10);
        let digit = (ZERO + n % 10) as u8;
        assert(decimal(n).drop_last() =~= shorter);
        assert(decimal(n).last() == digit);
        assert forall|i: int| 0 <= i < decimal(n).len() implies is_digit(
            #[trigger] decimal(n)[i],
        ) by {
            if i < shorter.len() {
                assert(decimal(n)[i] == shorter[i]);
            }
        }
    } else {
        assert(decimal(n).drop_last() =~= Seq::<u8>::empty());
        assert(digits_value(decimal(n).drop_last()) == 0);
    }
}

/// Reading the text of a cup's number gives the number back.
pub proof fn lemma_id_text_round_trip(id: int)
    requires
        i32::MIN <= id <= i32::MAX,
    ensures
        parsed_id(id_text(id)) == Some(id),
{
    let text = id_text(id);
    if id < 0 {
        let digits = decimal((-id) as nat);
        lemma_decimal_spells((-id) as nat);
        assert(text[0] == MINUS);
        assert(text.skip(1) =~= digits);
    } else {
        lemma_decimal_spells(id as nat);
        assert(is_digit(text[0]));
        assert(text.skip(0) =~= text);
    }
}

/// With more digits the number that they spell does not get smaller.
pub proof fn lemma_digits_value_grows(digits: Seq<u8>, taken: int)
    requires
        0 <= taken <= digits.len(),
        all_digits(digits),
    ensures
        digits_value(digits.take(taken)) <= digits_value(digits),
    decreases digits.len() - taken,
{
    if taken < digits.len() {
        lemma_digits_value_grows(digits, taken + 1);
        assert(digits.take(taken + 1).drop_last() =~= digits.take(taken));
        assert(is_digit(digits[taken]));
    } else {
        assert(digits.take(taken) =~= digits);
    }
}

/// Appends the decimal digits of `n`.
fn push_decimal(text: &mut Vec<u8>, n: u32)
    ensures
        final(text)@ == old(text)@ + decimal(n as nat),
    decreases n,
{
    if n < 10 {
        text.push(ZERO + n as u8);
        assert(text@ =~= old(text)@ + decimal(n as nat));
    } else {
        push_decimal(text, n / 10);
        text.push(ZERO + (n % 10) as u8);
        assert(text@ =~= old(text)@ + decimal(n as nat));
    }
}

/// The number of a cup as the text that its code carries.
pub fn cup_id_text(id: i32) -> (text: Vec<u8>)
    ensures
        text@ == id_text(id as int),
        0 < text.len() <= 11,
{
    let mut text: Vec<u8> = Vec::new();
    if id < 0 {
        text.push(MINUS);
        let magnitude: u32 = (-(id as i64)) as u32;
        push_decimal(&mut text, magnitude);
        assert(text@ =~= id_text(id as int));
    } else {
        push_decimal(&mut text, id as u32);
        assert(text@ =~= id_text(id as int));
    }
    proof {
        lemma_id_text_len(id as int);
    }
    text
}

/// Whether `n` has at most `count` decimal digits.
pub open spec fn has_digits(n: nat, count: nat) -> bool
    decreases count,
{
    if count <= 1 {
        n < 10
    } else {
        has_digits(n / 10, (count - 1) as nat)
    }
}

/// A number of at most `count` decimal digits has a text of at most that
/// length.
pub proof fn lemma_decimal_len(n: nat, count: nat)
    requires
        count >= 1,
        has_digits(n, count),
    ensures
        0 < decimal(n).len() <= count,
    decreases count,
{
    if n >= 10 {
        lemma_decimal_len(n / 10, (count - 1) as nat);
    }
}

/// The text of a cup's number has at most eleven characters.
pub proof fn lemma_id_text_len(id: int)
    requires
        i32::MIN <= id <= i32::MAX,
    ensures
        0 < id_text(id).len() <= 11,
{
    let magnitude: nat = if id < 0 {
        (-id) as nat
    } else {
        id as nat
    };
    reveal_with_fuel(has_digits, 11);
    lemma_decimal_len(magnitude, 10);
}

/// Reads the number of a cup from text: an optional sign, then decimal
/// digits and nothing else; none where the text is something else or the
/// number does not fit.
pub fn parse_cup_id(text: &str) -> (id: Option<i32>)
    ensures
        id is Some <==> parsed_id(encode_utf8(text@)) is Some,
        id matches Some(number) ==> parsed_id(encode_utf8(text@)) == Some(number as int),
{
    let bytes = text.as_bytes();
    let negative = bytes.len() > 0 && bytes[0] == MINUS;
    let start: usize = if bytes.len() > 0 && (bytes[0] == PLUS || bytes[0] == MINUS) {
        1
    } else {
        0
    };
    if start == bytes.len() {
        return None;
    }
    let ghost digits = bytes@.skip(start as int);
    let limit: i64 = if negative {
        2147483648
    } else {
        2147483647
    };
    let mut value: i64 = 0;
    let mut at: usize = start;
    while at < bytes.len()
        invariant
            start <= at <= bytes.len(),
            bytes@ == encode_utf8(text@),
            start == sign_len(bytes@),
            negative == (bytes@.len() > 0 && bytes@[0] == MINUS),
            limit == if negative {
                2147483648i64
            } else {
                2147483647i64
            },
            digits == bytes@.skip(start as int),
            all_digits(digits.take(at - start)),
            value == digits_value(digits.take(at - start)),
            0 <= value <= limit,
        decreases bytes.len() - at,
    {
        let byte = bytes[at];
        let ghost longer = digits.take(at - start + 1);
        proof {
            assert(longer.drop_last() =~= digits.take(at - start));
            assert(longer.last() == byte);
        }
        if byte < ZERO || byte > ZERO + 9 {
            assert(!is_digit(digits[at - start]));
            return None;
        }
        let next = value * 10 + (byte - ZERO) as i64;
        if next > limit {
            proof {
                if all_digits(digits) {
                    lemma_digits_value_grows(digits, at - start + 1);
                }
            }
            return None;
        }
        value = next;
        at += 1;
        proof {
            assert forall|i: int| 0 <= i < longer.len() implies is_digit(#[trigger] longer[i]) by {
                if i < longer.len() - 1 {
                    assert(longer[i] == digits.take(at - start - 1)[i]);
                }
            }
        }
    }
    proof {
        assert(digits.take(at - start) =~= digits);
    }
    if negative {
        Some((-value) as i32)
    } else {
        Some(value as i32)
    }
}

/// Generates the code of the cup with the given number as SVG text. This
/// never fails: the text of a number is short.
pub fn cup_qr_code(id: i32) -> (image: String)
    ensures
        image@ == generated_image(id_text(id as int), EccLevel::M, 200, 200),
        image@.len() > 0,
{
    let text = cup_id_text(id);
    match generate_qr_code(text.as_slice()) {
        Ok(image) => image,
        Err(_) => String::new(),
    }
}

/// The number of the cup, or the error, that the outcome of a scan stands
/// for.
pub open spec fn cup_id_read(text: Result<Seq<u8>, QrError>) -> Result<int, ScanCupError> {
    match text {
        Ok(bytes) => match parsed_id(bytes) {
            Some(id) => Ok(id),
            None => Err(ScanCupError::NotANumber),
        },
        Err(error) => Err(ScanCupError::Unreadable(error)),
    }
}

/// The bytes of a scanned text, or the error of the scan.
pub open spec fn text_bytes(text: Result<String, QrError>) -> Result<Seq<u8>, QrError> {
    match text {
        Ok(string) => Ok(encode_utf8(string@)),
        Err(error) => Err(error),
    }
}

/// A number of a cup, or an error, as plain values.
pub open spec fn id_view(id: Result<i32, ScanCupError>) -> Result<int, ScanCupError> {
    match id {
        Ok(number) => Ok(number as int),
        Err(error) => Err(error),
    }
}

/// Says what the outcome of a scan means for the search of a cup: its
/// number where the text is one, else the error.
pub fn cup_id_of(text: Result<String, QrError>) -> (id: Result<i32, ScanCupError>)
    ensures
        id_view(id) == cup_id_read(text_bytes(text)),
{
    match text {
        Ok(string) => match parse_cup_id(string.as_str()) {
            Some(id) => Ok(id),
            None => Err(ScanCupError::NotANumber),
        },
        Err(error) => Err(ScanCupError::Unreadable(error)),
    }
}

/// What the page that makes cups answers: it is shown to those who are
/// signed in, the others are sent to sign in.
pub fn create_page_reply(signed_in: bool) -> (reply: Reply)
    ensures
        reply == if signed_in {
            Reply::Page
        } else {
            Reply::SignIn
        },
{
    if signed_in {
        Reply::Page
    } else {
        Reply::SignIn
    }
}

/// What the page that scans cups answers once the number was looked up:
/// `found` is whether a cup has that number.
pub fn scan_reply(id: i32, found: bool) -> (reply: Reply)
    ensures
        reply == if found {
            Reply::Cup(id)
        } else {
            Reply::NotFound
        },
{
    if found {
        Reply::Cup(id)
    } else {
        Reply::NotFound
    }
}

} // verus!
