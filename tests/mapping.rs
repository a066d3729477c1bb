use rusty_pedalbox::mapping::map_range;
use rusty_pedalbox::Mapping;

fn check_u16(value: u16, minimum: u16, maximum: u16, expected: i16) {
    assert_eq!(value.map_to_i16(minimum, maximum), expected);
}

fn check_i32(value: i32, minimum: i32, maximum: i32, expected: i16) {
    assert_eq!(value.map_to_i16(minimum, maximum), expected);
}

#[test]
fn when_range_is_zero_size() {
    // Given
    let value: u16 = 100;
    let minimum: u16 = 100;
    let maximum: u16 = 100;

    // When
    let result = value.map_to_i16(minimum, maximum);

    // Then
    assert_eq!(result, i16::MIN);
}

#[test]
fn when_value_inside_the_input_range() {
    check_u16(100, 0, 100, i16::MAX);
    check_u16(50, 0, 100, -1);
    check_u16(0, 0, 100, i16::MIN);
    check_u16(200, 100, 200, i16::MAX);
    check_u16(150, 100, 200, -1);
    check_u16(100, 100, 200, i16::MIN);
}

#[test]
fn when_value_outside_the_input_range() {
    check_u16(101, 50, 100, i16::MAX);
    check_u16(49, 50, 100, i16::MIN);
}

#[test]
fn when_value_is_i32() {
    check_i32(100, 0, 100, i16::MAX);
    check_i32(50, 0, 100, -1);
    check_i32(0, 0, 100, i16::MIN);
    check_i32(101, 50, 100, i16::MAX);
    check_i32(49, 50, 100, i16::MIN);
    check_i32(100, 0, 200, -1);
}

#[test]
fn range_ends_map_to_output_ends() {
    assert_eq!(1820u16.map_to_i16(1820, 3100), i16::MIN);
    assert_eq!(3100u16.map_to_i16(1820, 3100), i16::MAX);
    assert_eq!(u16::MIN.map_to_i16(u16::MIN, u16::MAX), i16::MIN);
    assert_eq!(u16::MAX.map_to_i16(u16::MIN, u16::MAX), i16::MAX);
    assert_eq!((-230_000i32).map_to_i16(-230_000, 230_000), i16::MIN);
    assert_eq!(230_000i32.map_to_i16(-230_000, 230_000), i16::MAX);
}

#[test]
fn mapping_does_not_decrease_within_range() {
    let mut previous = i16::MIN;
    let mut v: u16 = 1820;
    while v <= 3100 {
        let r = v.map_to_i16(1820, 3100);
        assert!(r >= previous);
        previous = r;
        v += 1;
    }
    assert_eq!(previous, i16::MAX);
}

#[test]
fn mapping_saturates_outside_range() {
    assert_eq!(0u16.map_to_i16(1820, 3100), i16::MIN);
    assert_eq!(u16::MAX.map_to_i16(1820, 3100), i16::MAX);
    assert_eq!(i32::MIN.map_to_i16(0, 230_000), i16::MIN);
    assert_eq!(i32::MAX.map_to_i16(0, 230_000), i16::MAX);
}

#[test]
fn empty_range_always_maps_to_minimum() {
    for v in [0u16, 99, 100, 101, u16::MAX] {
        assert_eq!(v.map_to_i16(100, 100), i16::MIN);
    }
    assert_eq!((-5i32).map_to_i16(-7, -7), i16::MIN);
}

#[test]
fn mapping_is_repeatable() {
    let first = 2000u16.map_to_i16(1820, 3100);
    let second = 2000u16.map_to_i16(1820, 3100);
    assert_eq!(first, second);
    assert_eq!(first, -23553);
}

#[test]
fn map_range_covers_the_full_64_bit_domain() {
    assert_eq!(map_range(i64::MIN, i64::MIN, i64::MAX), i16::MIN);
    assert_eq!(map_range(i64::MAX, i64::MIN, i64::MAX), i16::MAX);
    assert_eq!(map_range(0, i64::MIN, i64::MAX), -1);
    assert_eq!(map_range(75, 50, 100), -1);
    assert_eq!(map_range(60, 50, 100), -19661);
}

#[test]
fn other_integer_widths_map_alike() {
    assert_eq!(50u8.map_to_i16(0, 100), -1);
    assert_eq!(0i8.map_to_i16(-100, 100), -1);
    assert_eq!(i16::MAX.map_to_i16(i16::MIN, i16::MAX), i16::MAX);
    assert_eq!(5u32.map_to_i16(0, 10), -1);
    assert_eq!(10i64.map_to_i16(0, 10), i16::MAX);
}
