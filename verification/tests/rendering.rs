use planchet::image::str_to_base64;
use planchet::summary::year_bounds;
use planchet::image::to_base64;
use planchet::models::Image;
use planchet::models::MimeType;
use planchet::numfmt::i32_to_string;
use planchet::numfmt::i64_to_string;
use planchet::numfmt::u16_to_string;
use planchet::numfmt::u64_to_string;

#[test]
fn u64_to_string_test() {
    assert_eq!(u64_to_string(0), "0");
    assert_eq!(u64_to_string(7), "7");
    assert_eq!(u64_to_string(10), "10");
    assert_eq!(u64_to_string(25), "25");
    assert_eq!(u64_to_string(123456), "123456");
    assert_eq!(u64_to_string(u64::MAX), "18446744073709551615");
}

#[test]
fn i64_to_string_test() {
    assert_eq!(i64_to_string(0), "0");
    assert_eq!(i64_to_string(42), "42");
    assert_eq!(i64_to_string(-1), "-1");
    assert_eq!(i64_to_string(-123456), "-123456");
    assert_eq!(i64_to_string(i64::MAX), "9223372036854775807");
    assert_eq!(i64_to_string(i64::MIN), "-9223372036854775808");
}

#[test]
fn i32_and_u16_to_string_test() {
    assert_eq!(i32_to_string(2000), "2000");
    assert_eq!(i32_to_string(-44), "-44");
    assert_eq!(i32_to_string(i32::MIN), "-2147483648");
    assert_eq!(u16_to_string(404), "404");
    assert_eq!(u16_to_string(65535), "65535");
}

#[test]
fn base64_encode_test() {
    assert_eq!(to_base64(&vec![]).0, "");
    assert_eq!(to_base64(&vec![1, 2, 3]).0, "AQID");
    assert_eq!(to_base64(&vec![0xff]).0, "/w==");
    assert_eq!(str_to_base64("some bytes").0, "c29tZSBieXRlcw==");
}

#[test]
fn image_from_bytes_test() {
    let image = Image::from_bytes(MimeType::Jpeg, &vec![1, 2, 3, 4]);
    assert_eq!(image.mime_type, MimeType::Jpeg);
    assert_eq!(image.image_data, "AQIDBA==");
    assert_eq!(image.image_data.len(), 8);
}

#[test]
fn year_bounds_test() {
    assert_eq!(year_bounds(&vec![]), None);
    assert_eq!(year_bounds(&vec![1858]), Some((1858, 1858)));
    assert_eq!(year_bounds(&vec![1920, 1858, 1901]), Some((1858, 1920)));
    assert_eq!(year_bounds(&vec![-50, 0, 50]), Some((-50, 50)));
}
