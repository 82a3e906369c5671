//! Enumerations of addresses and messages: a variant without data, with a
//! single value, with several positional values, and with named fields.

use vstd::prelude::*;
use crate::optional::Optional;

verus! {

/// The kind of an IP address: one of the two, never both.
#[derive(Clone, Copy, Debug, PartialEq, Eq, Structural)]
pub enum IpAddrKind {
    V4,
    V6,
}

/// An address as a struct: its kind beside its text.
#[derive(Debug, PartialEq, Eq)]
pub struct IpAddr {
    pub kind: IpAddrKind,
    pub address: String,
}

/// What an `IpAddr` stands for.
pub struct IpAddrView {
    pub kind: IpAddrKind,
    pub address: Seq<char>,
}

impl View for IpAddr {
    type V = IpAddrView;

    open spec fn view(&self) -> IpAddrView {
        IpAddrView { kind: self.kind, address: self.address@ }
    }
}

/// An address as an enumeration: each variant carries its text.
#[derive(Debug, PartialEq, Eq)]
pub enum IpAddress {
    V4(String),
    V6(String),
}

/// What an `IpAddress` stands for.
pub enum IpAddressView {
    V4(Seq<char>),
    V6(Seq<char>),
}

impl View for IpAddress {
    type V = IpAddressView;

    open spec fn view(&self) -> IpAddressView {
        match self {
            IpAddress::V4(text) => IpAddressView::V4(text@),
            IpAddress::V6(text) => IpAddressView::V6(text@),
        }
    }
}

/// An address whose variants carry different data: four numbers for
/// version four, text for version six.
#[derive(Debug, PartialEq, Eq)]
pub enum IpAddress2 {
    V4(u8, u8, u8, u8),
    V6(String),
}

/// What an `IpAddress2` stands for.
pub enum IpAddress2View {
    V4(u8, u8, u8, u8),
    V6(Seq<char>),
}

impl View for IpAddress2 {
    type V = IpAddress2View;

    open spec fn view(&self) -> IpAddress2View {
        match self {
            IpAddress2::V4(a, b, c, d) => IpAddress2View::V4(*a, *b, *c, *d),
            IpAddress2::V6(text) => IpAddress2View::V6(text@),
        }
    }
}

/// A message, with one variant of each payload shape.
#[derive(Debug, PartialEq, Eq)]
pub enum Message {
    /// No data.
    Quit,
    /// Named fields.
    Move { x: i32, y: i32 },
    /// A single text.
    Write(String),
    /// Three numbers.
    ChangeColor(i32, i32, i32),
}

/// What a `Message` stands for.
pub enum MessageView {
    Quit,
    Move { x: i32, y: i32 },
    Write(Seq<char>),
    ChangeColor(i32, i32, i32),
}

impl View for Message {
    type V = MessageView;

    open spec fn view(&self) -> MessageView {
        match self {
            Message::Quit => MessageView::Quit,
            Message::Move { x, y } => MessageView::Move { x: *x, y: *y },
            Message::Write(text) => MessageView::Write(text@),
            Message::ChangeColor(red, green, blue) => MessageView::ChangeColor(*red, *green, *blue),
        }
    }
}

impl Message {
    /// An operation attached to the enumeration as a whole: it can be
    /// called on every variant alike. It does nothing.
    pub fn call(&self) {
    }
}

/// Both kinds of address, version four first.
pub fn a() -> (kinds: (IpAddrKind, IpAddrKind))
    ensures
        kinds.0 == IpAddrKind::V4,
        kinds.1 == IpAddrKind::V6,
{
    let four = IpAddrKind::V4;
    let six = IpAddrKind::V6;
    (four, six)
}

/// Takes an address kind, whichever variant it is: both are of one type.
/// It does nothing with it.
pub fn route(ip_kind: IpAddrKind) {
}

/// The home and the loopback address as structs.
pub fn b() -> (addresses: (IpAddr, IpAddr))
    ensures
        addresses.0@ == (IpAddrView { kind: IpAddrKind::V4, address: "127.0.0.1"@ }),
        addresses.1@ == (IpAddrView { kind: IpAddrKind::V6, address: "::1"@ }),
{
    let home = IpAddr { kind: IpAddrKind::V4, address: "127.0.0.1".to_owned() };
    let loopback = IpAddr { kind: IpAddrKind::V6, address: "::1".to_owned() };
    (home, loopback)
}

/// The home and the loopback address with the text inside the variant.
pub fn c() -> (addresses: (IpAddress, IpAddress))
    ensures
        addresses.0@ == IpAddressView::V4("127.0.0.1"@),
        addresses.1@ == IpAddressView::V6("::1"@),
{
    let home = IpAddress::V4("127.0.0.1".to_owned());
    let loopback = IpAddress::V6("::1".to_owned());
    (home, loopback)
}

/// The home address as four numbers and the loopback address as text.
pub fn d() -> (addresses: (IpAddress2, IpAddress2))
    ensures
        addresses.0@ == IpAddress2View::V4(127, 0, 0, 1),
        addresses.1@ == IpAddress2View::V6("::1"@),
{
    let home = IpAddress2::V4(127, 0, 0, 1);
    let loopback = IpAddress2::V6("::1".to_owned());
    (home, loopback)
}

/// A message to write "hello", after `call` has been called on it.
pub fn e() -> (message: Message)
    ensures
        message@ == MessageView::Write("hello"@),
{
    let m = Message::Write("hello".to_owned());
    m.call();
    m
}

/// A number that is there, a text that is there, and a number that is not.
pub fn f() -> (values: (Optional<i32>, Optional<&'static str>, Optional<i32>))
    ensures
        values.0 == Optional::Present(5i32),
        values.1 matches Optional::Present(text) && text@ == "a string"@,
        values.2 is Absent,
{
    let some_number = Optional::Present(5);
    let some_string = Optional::Present("a string");
    let absent_number: Optional<i32> = Optional::Absent;
    (some_number, some_string, absent_number)
}

/// The sum of a number and an optional number. The two are of different
/// types, so the optional one is split into its cases first: there is no
/// sum where there is no second number.
pub fn g() -> (sum: Optional<i8>)
    ensures
        sum == Optional::Present(10i8),
{
    let x: i8 = 5;
    let y: Optional<i8> = Optional::Present(5);
    match y {
        Optional::Present(value) => Optional::Present(x + value),
        Optional::Absent => Optional::Absent,
    }
}

} // verus!
