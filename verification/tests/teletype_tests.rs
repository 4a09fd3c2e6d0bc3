use bootloader::teletype::{
    fail, fail_rs, print_char, print_chars, print_dec, print_hex, print_hex32, print_str, printline,
    BiosWriter,
};

fn text_of(requests: &[u16]) -> String {
    for request in requests {
        assert_eq!(request & 0xFF00, 0x0E00);
    }
    requests.iter().map(|r| (*r & 0xFF) as u8 as char).collect()
}

#[test]
fn one_request_for_each_character() {
    assert_eq!(print_char(b'A'), 0x0E41);
    assert_eq!(print_char(0xFF), 0x0EFF);
    assert_eq!(print_chars(b"Hi!"), vec![0x0E48, 0x0E69, 0x0E21]);
    assert_eq!(print_chars(b""), Vec::<u16>::new());
    assert_eq!(bootloader::teletype::print(b"Hi!"), print_chars(b"Hi!"));
}

#[test]
fn lines_end_with_carriage_return_and_line_feed() {
    assert_eq!(printline(b"ok"), vec![0x0E6F, 0x0E6B, 0x0E0D, 0x0E0A]);
    assert_eq!(text_of(&bootloader::teletype::println(b"Halt.")), "Halt.\r\n");
    assert_eq!(text_of(&printline(b"")), "\r\n");
}

#[test]
fn failure_message_names_the_code() {
    assert_eq!(text_of(&fail(b"disk read")), "Fail: disk read\r\n");
    assert_eq!(text_of(&fail(b"")), "Fail: \r\n");
    assert_eq!(text_of(&fail_rs(b'P')), "Fail: P\r\n");
    assert_eq!(fail_rs(b'D')[6], 0x0E44);
}

#[test]
fn decimal_has_no_leading_zeros() {
    assert_eq!(text_of(&print_dec(0)), "0");
    assert_eq!(text_of(&print_dec(7)), "7");
    assert_eq!(text_of(&print_dec(10)), "10");
    assert_eq!(text_of(&print_dec(123)), "123");
    assert_eq!(text_of(&print_dec(9000)), "9000");
    assert_eq!(text_of(&print_dec(65535)), "65535");
}

#[test]
fn hexadecimal_follows_0x_in_lower_case() {
    assert_eq!(text_of(&print_hex(0)), "0x0");
    assert_eq!(text_of(&print_hex(0x9)), "0x9");
    assert_eq!(text_of(&print_hex(0xA)), "0xa");
    assert_eq!(text_of(&print_hex(0x7c00)), "0x7c00");
    assert_eq!(text_of(&print_hex(0xFFFF)), "0xffff");
    assert_eq!(text_of(&print_hex32(0x10)), "0x10");
    assert_eq!(text_of(&print_hex32(0x534d_4150)), "0x534d4150");
    assert_eq!(text_of(&print_hex32(0xFFFF_FFFF)), "0xffffffff");
    assert_eq!(text_of(&print_hex32(0x0BAD_F00D)), "0xbadf00d");
}

#[test]
fn text_gets_line_ends_and_question_marks() {
    assert_eq!(text_of(&print_str("a\nb")), "a\r\nb");
    assert_eq!(text_of(&print_str("caf\u{e9}")), "caf?");
    assert_eq!(text_of(&print_str("")), "");
    let mut writer = BiosWriter::new();
    writer.write_str("PANIC: ");
    writer.write_str("x\n");
    assert_eq!(text_of(&writer.pending), "PANIC: x\r\n");
}
