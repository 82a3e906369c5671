use tagged_union::enums::{a, b, c, d, e, f, g, route, IpAddr, IpAddrKind, IpAddress, IpAddress2, Message};
use tagged_union::optional::Optional;

#[test]
fn a_gives_both_kinds() {
    let (four, six) = a();
    assert_eq!(four, IpAddrKind::V4);
    assert_eq!(six, IpAddrKind::V6);
    assert_ne!(four, six);
}

#[test]
fn route_takes_either_kind() {
    let (four, six) = a();
    route(four);
    route(six);
    route(IpAddrKind::V4);
}

#[test]
fn b_gives_home_and_loopback_structs() {
    let (home, loopback) = b();
    assert_eq!(home, IpAddr { kind: IpAddrKind::V4, address: String::from("127.0.0.1") });
    assert_eq!(loopback, IpAddr { kind: IpAddrKind::V6, address: String::from("::1") });
}

#[test]
fn c_gives_home_and_loopback_with_text_inside() {
    let (home, loopback) = c();
    assert_eq!(home, IpAddress::V4(String::from("127.0.0.1")));
    assert_eq!(loopback, IpAddress::V6(String::from("::1")));
}

#[test]
fn d_gives_numbers_for_v4_and_text_for_v6() {
    let (home, loopback) = d();
    assert_eq!(home, IpAddress2::V4(127, 0, 0, 1));
    assert_eq!(loopback, IpAddress2::V6(String::from("::1")));
}

#[test]
fn e_gives_the_written_message() {
    assert_eq!(e(), Message::Write(String::from("hello")));
}

#[test]
fn call_is_there_for_every_variant() {
    Message::Quit.call();
    Message::Move { x: 1, y: -2 }.call();
    Message::Write(String::from("hello")).call();
    Message::ChangeColor(0, 160, 255).call();
}

#[test]
fn call_leaves_the_message_as_it_was() {
    let message = Message::Move { x: 3, y: 4 };
    message.call();
    assert_eq!(message, Message::Move { x: 3, y: 4 });
}

#[test]
fn f_gives_two_present_values_and_an_absent_one() {
    let (some_number, some_string, absent_number) = f();
    assert_eq!(some_number, Optional::Present(5));
    assert_eq!(some_string, Optional::Present("a string"));
    assert_eq!(absent_number, Optional::Absent);
}

#[test]
fn g_adds_after_a_case_split() {
    assert_eq!(g(), Optional::Present(10i8));
}
