use firmware_core::register::Access;
use firmware_core::register::FieldValue;
use firmware_core::register::MmioRegister;
use firmware_core::register::RegWidth;
use firmware_core::register::RegisterError;
use firmware_core::register::RegisterField;

#[test]
fn field_round_trip_all_values() {
    // Round trip: decode(encode(v)) == v for every v representable in the width.
    let f = RegisterField::new(3, 4);
    let mut v: u64 = 0;
    while v < 16 {
        assert_eq!(f.decode(f.encode(v)), v);
        v += 1;
    }
}

#[test]
fn field_encode_places_bits() {
    let f = RegisterField::new(5, 1);
    assert_eq!(f.encode(1), 0x20);
    assert_eq!(f.mask_value(), 0x20);
    let wide = RegisterField::new(8, 8);
    assert_eq!(wide.encode(0xAB), 0xAB00);
    assert_eq!(wide.mask_value(), 0xFF00);
}

#[test]
fn field_decode_ignores_other_bits() {
    let f = RegisterField::new(4, 4);
    assert_eq!(f.decode(0xFFFF), 0xF);
    assert_eq!(f.decode(0xA5A5), 0xA);
}

#[test]
fn field_accepts_bounds() {
    let f = RegisterField::new(0, 4);
    assert!(f.accepts(15));
    assert!(!f.accepts(16));
    let one = RegisterField::new(9, 1);
    assert!(one.accepts(1));
    assert!(!one.accepts(2));
}

#[test]
fn field_isolation_two_fields() {
    // Field isolation: OR-composed encodings decode independently.
    let f1 = RegisterField::new(1, 3);
    let f2 = RegisterField::new(8, 4);
    let composed = f1.encode(5) | f2.encode(9);
    assert_eq!(f1.decode(composed), 5);
    assert_eq!(f2.decode(composed), 9);
}

#[test]
fn field_value_symbolic_constant() {
    let irq = RegisterField::new(5, 1);
    let enabled = FieldValue::new(irq, 1);
    assert_eq!(enabled.encoded(), 0x20);
}

#[test]
fn register_rejects_overlapping_fields() {
    let mut fields = Vec::new();
    fields.push(RegisterField::new(0, 4));
    fields.push(RegisterField::new(2, 2));
    let made = MmioRegister::new(0x3F00_0000, RegWidth::Word, Access::ReadWrite, fields);
    assert!(matches!(made, Err(RegisterError::OverlappingFields)));
}

#[test]
fn register_rejects_field_out_of_range() {
    let mut fields = Vec::new();
    fields.push(RegisterField::new(12, 8));
    let made = MmioRegister::new(0x3F00_0000, RegWidth::Half, Access::ReadWrite, fields);
    assert!(matches!(made, Err(RegisterError::FieldOutOfRange)));
}

#[test]
fn register_accepts_disjoint_fields() {
    let mut fields = Vec::new();
    fields.push(RegisterField::new(0, 4));
    fields.push(RegisterField::new(4, 4));
    fields.push(RegisterField::new(8, 8));
    let made = MmioRegister::new(0x3F00_0000, RegWidth::Half, Access::ReadWrite, fields);
    assert!(made.is_ok());
    let reg = made.unwrap();
    assert_eq!(reg.value, 0);
    assert_eq!(reg.address, 0x3F00_0000);
}

#[test]
fn register_set_truncates_to_width() {
    let made = MmioRegister::new(0x100, RegWidth::Word, Access::ReadWrite, Vec::new());
    let mut reg = made.unwrap();
    reg.set(0x1_2345_6789);
    assert_eq!(reg.get(), 0x2345_6789);

    let made_half = MmioRegister::new(0x200, RegWidth::Half, Access::ReadWrite, Vec::new());
    let mut half = made_half.unwrap();
    half.set(0x1_2345);
    assert_eq!(half.get(), 0x2345);
}

#[test]
fn register_write_value_then_read_fields() {
    let mut fields = Vec::new();
    let f1 = RegisterField::new(1, 1);
    let f2 = RegisterField::new(5, 1);
    fields.push(f1);
    fields.push(f2);
    let made = MmioRegister::new(0x300, RegWidth::Word, Access::ReadWrite, fields);
    let mut reg = made.unwrap();
    reg.write_value(f1.encode(1) | f2.encode(1));
    assert_eq!(reg.read_field(&f1), 1);
    assert_eq!(reg.read_field(&f2), 1);
    reg.write_value(f2.encode(1));
    assert_eq!(reg.read_field(&f1), 0);
    assert_eq!(reg.read_field(&f2), 1);
}
