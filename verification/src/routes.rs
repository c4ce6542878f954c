//! What the routes of the service decide: which fields of a message are
//! acceptable, which command a message becomes, and how a join link is
//! drawn as a code to scan.

use crate::signal::socket::{group_send, user_send, RPCCommand};
use crate::text::{trim, trimmed};
use vstd::prelude::*;

verus! {

/// The text that greets a visitor.
pub fn index() -> (r: &'static str)
    ensures
        r@ == "Welcome to the Parlour Signal Bot!\nhttps://parlour.dev"@,
{
    "Welcome to the Parlour Signal Bot!\nhttps://parlour.dev"
}

/// A message to send, as a form carries it.
#[derive(Debug, Clone)]
pub struct Message {
    pub to_group: bool,
    pub recipient: String,
    pub sender: String,
    pub text: String,
}

/// A field of a message that holds a character it may not hold.
#[derive(Clone, Copy, Debug, PartialEq, Eq)]
pub enum InvalidField {
    Recipient,
    Sender,
}

impl InvalidField {
    /// The words that the error is reported with.
    pub fn message(&self) -> (r: &'static str)
        ensures
            r@ == match *self {
                InvalidField::Recipient => "Invalid characters in sender or recipient"@,
                InvalidField::Sender => "Bad characters in sender"@,
            },
    {
        match self {
            InvalidField::Recipient => "Invalid characters in sender or recipient",
            InvalidField::Sender => "Bad characters in sender",
        }
    }
}

/// A letter or digit of ASCII.
pub open spec fn is_ascii_alphanumeric(c: char) -> bool {
    ('0' <= c && c <= '9') || ('A' <= c && c <= 'Z') || ('a' <= c && c <= 'z')
}

/// A character that a recipient may hold: a letter or digit of ASCII, or
/// one of `+`, `/` and `=`, so that a phone number and a group id both
/// pass.
pub open spec fn recipient_char(c: char) -> bool {
    is_ascii_alphanumeric(c) || c == '+' || c == '/' || c == '='
}

/// Every character of `value` may stand in a recipient.
pub open spec fn recipient_ok(value: Seq<char>) -> bool {
    forall|i: int| 0 <= i < value.len() ==> recipient_char(#[trigger] value[i])
}

/// Accepts a recipient that holds acceptable characters only.
pub fn validate_recipient(value: &str) -> (r: Result<(), InvalidField>)
    ensures
        match r {
            Ok(_) => recipient_ok(value@),
            Err(e) => !recipient_ok(value@) && e == InvalidField::Recipient,
        },
{
    let chars = crate::text::to_chars(value);
    let mut i: usize = 0;
    while i < chars.len()
        invariant
            i <= chars.len(),
            chars@ == value@,
            forall|j: int| 0 <= j < i ==> recipient_char(#[trigger] value@[j]),
        decreases chars.len() - i,
    {
        let c = chars[i];
        let ok = ('0' <= c && c <= '9') || ('A' <= c && c <= 'Z') || ('a' <= c && c <= 'z') || c
            == '+' || c == '/' || c == '=';
        if !ok {
            return Err(InvalidField::Recipient);
        }
        i = i + 1;
    }
    Ok(())
}

/// Whether the standard library counts `c` as numeric: a digit, a letter
/// used as a number, or another numeric character of Unicode.
pub uninterp spec fn char_is_numeric(c: char) -> bool;

/// Calls `char::is_numeric` of the standard library, whose result is named
/// by `char_is_numeric`.
#[verifier::external_body]
fn is_numeric(c: char) -> (r: bool)
    ensures
        r == char_is_numeric(c),
{
    c.is_numeric()
}

/// A character that a sender may hold, given whether it is numeric: a
/// numeric character or `+`.
pub open spec fn sender_char(c: char, numeric: bool) -> bool {
    numeric || c == '+'
}

/// Whether a sender may hold `c`, given whether it is numeric.
pub fn allowed_in_sender(c: char, numeric: bool) -> (r: bool)
    ensures
        r == sender_char(c, numeric),
{
    numeric || c == '+'
}

/// Every character of `value` may stand in a sender.
pub open spec fn sender_ok(value: Seq<char>) -> bool {
    forall|i: int|
        0 <= i < value.len() ==> sender_char(#[trigger] value[i], char_is_numeric(value[i]))
}

/// Accepts a sender that holds acceptable characters only.
pub fn validate_sender(value: &str) -> (r: Result<(), InvalidField>)
    ensures
        match r {
            Ok(_) => sender_ok(value@),
            Err(e) => !sender_ok(value@) && e == InvalidField::Sender,
        },
{
    let chars = crate::text::to_chars(value);
    let mut i: usize = 0;
    while i < chars.len()
        invariant
            i <= chars.len(),
            chars@ == value@,
            forall|j: int|
                0 <= j < i ==> sender_char(#[trigger] value@[j], char_is_numeric(value@[j])),
        decreases chars.len() - i,
    {
        let c = chars[i];
        if !allowed_in_sender(c, is_numeric(c)) {
            return Err(InvalidField::Sender);
        }
        i = i + 1;
    }
    Ok(())
}

impl Message {
    /// Accepts a message whose recipient and sender hold acceptable
    /// characters only. The recipient is looked at first.
    pub fn validate(&self) -> (r: Result<(), InvalidField>)
        ensures
            match r {
                Ok(_) => recipient_ok(self.recipient@) && sender_ok(self.sender@),
                Err(InvalidField::Recipient) => !recipient_ok(self.recipient@),
                Err(InvalidField::Sender) => recipient_ok(self.recipient@) && !sender_ok(
                    self.sender@,
                ),
            },
    {
        match validate_recipient(self.recipient.as_str()) {
            Ok(()) => validate_sender(self.sender.as_str()),
            Err(e) => Err(e),
        }
    }

    /// The command that sends the message: a send to a group where the
    /// message is for a group, else a send to a person, in both cases from
    /// the sender to the recipient.
    pub fn command(&self) -> (r: RPCCommand)
        ensures
            r@ == if self.to_group {
                group_send(self.sender@, self.recipient@, self.text@)
            } else {
                user_send(self.sender@, self.recipient@, self.text@)
            },
    {
        if self.to_group {
            RPCCommand::send_group(
                self.sender.as_str(),
                self.recipient.as_str(),
                self.text.as_str(),
            )
        } else {
            RPCCommand::send_user(
                self.sender.as_str(),
                self.recipient.as_str(),
                self.text.as_str(),
            )
        }
    }
}

/// The error type of `qrcode`. Nothing is known of a value of it.
#[verifier::external_type_specification]
#[verifier::external_body]
pub struct ExQrError(qrcode::types::QrError);

/// The picture that `qrcode` draws for `data`: the smallest code at medium
/// error correction, as an SVG document at least `width` by `height`
/// pixels in the colours `dark` and `light`, or nothing where `data` does
/// not fit a code.
pub uninterp spec fn qr_svg(
    data: Seq<char>,
    width: u32,
    height: u32,
    dark: Seq<char>,
    light: Seq<char>,
) -> Option<Seq<char>>;

/// Calls `qrcode::QrCode::new` on the bytes of `data` and renders the code
/// with the SVG renderer of the crate. The result is named by `qr_svg`.
/// The dimensions are kept small enough for the renderer's arithmetic.
#[verifier::external_body]
fn draw_code(data: &str, width: u32, height: u32, dark: &str, light: &str) -> (r: Result<
    String,
    qrcode::types::QrError,
>)
    requires
        width <= 0x1_0000,
        height <= 0x1_0000,
    ensures
        r matches Ok(svg) ==> qr_svg(data@, width, height, dark@, light@) == Some(svg@),
        r is Err ==> qr_svg(data@, width, height, dark@, light@) is None,
{
    let code = qrcode::QrCode::new(data.as_bytes())?;
    Ok(
        code.render().min_dimensions(width, height).dark_color(
            qrcode::render::svg::Color(dark),
        ).light_color(qrcode::render::svg::Color(light)).build(),
    )
}

/// A join link does not fit a code to scan.
#[derive(Clone, Copy, Debug, PartialEq, Eq)]
pub struct LinkTooLong {}

/// The code to scan for the join link `uri`: the link without the white
/// space around it, drawn black on white, at least 200 pixels wide and
/// high.
pub open spec fn join_code(uri: Seq<char>) -> Option<Seq<char>> {
    qr_svg(trimmed(uri), 200, 200, "#000000"@, "#ffffff"@)
}

/// Draws the join link `uri` as a code to scan.
pub fn link_qr(uri: &str) -> (r: Result<String, LinkTooLong>)
    ensures
        match r {
            Ok(svg) => join_code(uri@) == Some(svg@),
            Err(_) => join_code(uri@) is None,
        },
{
    match draw_code(trim(uri), 200, 200, "#000000", "#ffffff") {
        Ok(svg) => Ok(svg),
        Err(_) => Err(LinkTooLong {  }),
    }
}

} // verus!
