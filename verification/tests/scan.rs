use feedmee::scan::{contains_bytes, has_byte, tame_attribute, tame_element};

#[test]
fn bytes_are_found_where_they_stand() {
    assert!(contains_bytes(b"abcabd", b"abd"));
    assert!(contains_bytes(b"abcabd", b"abc"));
    assert!(contains_bytes(b"abcabd", b""));
    assert!(contains_bytes(b"", b""));
    assert!(!contains_bytes(b"abcabd", b"abe"));
    assert!(!contains_bytes(b"ab", b"abc"));
    assert!(!contains_bytes(b"", b"a"));
}

#[test]
fn single_byte_is_found() {
    assert!(has_byte(b"a\0b", 0));
    assert!(!has_byte(b"ab", 0));
    assert!(!has_byte(b"", 0));
    assert!(has_byte(b"ab", b'b'));
}

#[test]
fn closing_and_empty_tags_are_harmless() {
    assert!(tame_element(b"</itunes:duration>\n<x>", b"duration"));
    assert!(tame_element(b"</itunes:duration></item>", b"duration"));
    assert!(tame_element(b"<itunes:duration/>", b"duration"));
    assert!(tame_element(b"no such name", b"duration"));
    assert!(tame_element(b"", b"duration"));
}

#[test]
fn short_play_time_is_tame() {
    assert!(tame_element(b"<itunes:duration>01:02:03</itunes:duration>", b"duration"));
    assert!(tame_element(b"<itunes:duration>3600</itunes:duration>", b"duration"));
    assert!(tame_element(b"<itunes:duration>12:05:35.123</itunes:duration>", b"duration"));
    assert!(tame_element(b"<itunes:duration></itunes:duration>", b"duration"));
    assert!(tame_element(b"<d:duration>123456789012345</d:duration>", b"duration"));
    assert!(tame_element(b"<itunes:duration>5", b"duration"));
}

#[test]
fn other_play_times_are_not_tame() {
    for doc in [
        &b"<itunes:duration>99999999999999999999</itunes:duration>"[..],
        b"<d:duration>1234567890123456</d:duration>",
        b"<itunes:duration>&#57;&#57;</itunes:duration>",
        b"<itunes:duration><![CDATA[99999999999999999999]]></itunes:duration>",
        b"<itunes:duration>1<!-- -->2</itunes:duration>",
        b"<itunes:duration>1<?x?>2</itunes:duration>",
        b"<itunes:duration>\xd9\xa1</itunes:duration>",
        b"<itunes:duration x=\"1\">5</itunes:duration>",
        b"<itunes:duration >5</itunes:duration>",
        b"<itunes:duration />",
        b"<itunes:duration>5<",
        b"<itunes:duration",
        b"the duration of it",
        b"<a/b:duration>99999999999999999999</a/b:duration>",
        b"<x\">\"</b:duration>99999999999999999999</x>",
        b"<a\"b:duration >1</x> \" >99999999999999999999</a>",
    ] {
        assert!(!tame_element(doc, b"duration"));
    }
}

#[test]
fn values_of_attributes_are_tame_or_not() {
    assert!(tame_attribute(b"<media:thumbnail time=\"12:05:01.123\"/>", b"time"));
    assert!(tame_attribute(b"<media:text start = '5' end='10'>", b"start"));
    assert!(tame_attribute(b"<media:text start = '5' end='10'>", b"end"));
    assert!(tame_attribute(b"<a time>sometimes timer=x", b"time"));
    assert!(tame_attribute(b"time=\"\"", b"time"));
    assert!(tame_attribute(b"", b"time"));
    for doc in [
        &b"<a time=\"99999999999999999999\">"[..],
        b"<a time=\"&#57;\">",
        b"<a time=\"1'>",
        b"<a time=5>",
        b"<a time=",
        b"<a time= \"5",
        b"<a time=\"\xd9\xa1\">",
        b"href=\"x?time=5\"",
    ] {
        assert!(!tame_attribute(doc, b"time"));
    }
}
