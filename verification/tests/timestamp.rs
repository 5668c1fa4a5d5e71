use bakery_text::{even_minute_of, fill_n, fill_name, number_text, timestamp, DayClock};

#[test]
fn even_minute_of_rounds_down_to_the_nearest_even_minute() {
    assert_eq!(even_minute_of(DayClock::at(7, 30)), 30);
    assert_eq!(even_minute_of(DayClock::at(7, 31)), 30);
    assert_eq!(even_minute_of(DayClock::at(7, 0)), 0);
}

#[test]
fn timestamp_pads_to_two_digits() {
    assert_eq!(timestamp(7, 5), "07:05");
    assert_eq!(timestamp(23, 59), "23:59");
    assert_eq!(timestamp(0, 0), "00:00");
    assert_eq!(timestamp(123, 4), "123:04");
}

#[test]
fn fill_n_replaces_every_placeholder() {
    assert_eq!(fill_n("小麦粉を{n}kg 仕込んだ", 12), "小麦粉を12kg 仕込んだ");
    assert_eq!(fill_n("{n}と{n}", 0), "0と0");
    assert_eq!(fill_n("レジを開けた", 5), "レジを開けた");
    assert_eq!(fill_n("{n", 5), "{n");
}

#[test]
fn fill_name_replaces_the_speaker() {
    assert_eq!(fill_name("{name}さんが言った", "カズ"), "カズさんが言った");
    assert_eq!(fill_name("{name}{name}", "A"), "AA");
}

#[test]
fn number_text_is_plain_decimal() {
    assert_eq!(number_text(0), "0");
    assert_eq!(number_text(9), "9");
    assert_eq!(number_text(10), "10");
    assert_eq!(number_text(4_294_967_295), "4294967295");
}
