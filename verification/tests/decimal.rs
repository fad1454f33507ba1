use shared::decimal::push_decimal;

#[test]
fn push_decimal_appends_to_what_is_there() {
    let mut text = String::from("port ");
    push_decimal(&mut text, 8080);
    assert_eq!(text, "port 8080");
    push_decimal(&mut text, 0);
    assert_eq!(text, "port 80800");
}

#[test]
fn push_decimal_writes_no_leading_zero() {
    let mut text = String::new();
    push_decimal(&mut text, 7);
    assert_eq!(text, "7");
    let mut text = String::new();
    push_decimal(&mut text, 1005);
    assert_eq!(text, "1005");
}

#[test]
fn push_decimal_of_zero_is_one_digit() {
    let mut text = String::new();
    push_decimal(&mut text, 0);
    assert_eq!(text, "0");
}

#[test]
fn push_decimal_reads_back_as_the_number() {
    let numbers: Vec<u16> = vec![0, 1, 9, 10, 11, 19, 20, 100, 255, 256, 4096, 32768, 65534, 65535];
    for n in numbers.iter() {
        let mut text = String::new();
        push_decimal(&mut text, *n);
        assert_eq!(text.parse::<u16>().unwrap(), *n);
        assert_eq!(text, n.to_string());
    }
}
