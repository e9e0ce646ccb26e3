//! The vertex layout descriptor generator on concrete records.

use render_gl::data::{int8, int8_float, u2_u10_u10_u10_rev_float, AttribLayout};
use render_gl::layout::{vertex_attrib_ops, AttribFormat, FieldSpec, LayoutError, ScalarKind};

/// A record of one signed byte and one packed quad: two operations, with
/// strictly increasing offsets that partition the record's five bytes.
#[test]
fn two_field_record_ops() {
    let fields = vec![
        FieldSpec {
            location: 0,
            format: int8::format(),
        },
        FieldSpec {
            location: 1,
            format: u2_u10_u10_u10_rev_float::format(),
        },
    ];
    let ops = vertex_attrib_ops(&fields, 5).unwrap();
    assert_eq!(ops.len(), 2);
    assert_eq!(ops[0].location, 0);
    assert_eq!(ops[0].components, 1);
    assert_eq!(ops[0].scalar, ScalarKind::Byte);
    assert!(!ops[0].normalized);
    assert_eq!(ops[0].stride, 5);
    assert_eq!(ops[0].offset, 0);
    assert_eq!(ops[1].location, 1);
    assert_eq!(ops[1].components, 4);
    assert_eq!(ops[1].scalar, ScalarKind::UInt2101010Rev);
    assert!(ops[1].normalized);
    assert_eq!(ops[1].stride, 5);
    assert_eq!(ops[1].offset, 1);
    // Final offset plus final size covers the whole record.
    assert_eq!(ops[1].offset + 4, 5);
}

/// A three-field record keeps declaration order and a running offset.
#[test]
fn three_field_record_offsets_increase() {
    let fields = vec![
        FieldSpec {
            location: 2,
            format: AttribFormat {
                components: 3,
                scalar: ScalarKind::Float,
                normalized: false,
                size: 12,
            },
        },
        FieldSpec {
            location: 0,
            format: AttribFormat {
                components: 2,
                scalar: ScalarKind::Float,
                normalized: false,
                size: 8,
            },
        },
        FieldSpec {
            location: 1,
            format: int8_float::format(),
        },
    ];
    let ops = vertex_attrib_ops(&fields, 21).unwrap();
    assert_eq!(ops.len(), 3);
    assert_eq!(ops[0].offset, 0);
    assert_eq!(ops[1].offset, 12);
    assert_eq!(ops[2].offset, 20);
    assert!(ops[0].offset < ops[1].offset && ops[1].offset < ops[2].offset);
    assert_eq!(ops[2].offset + 1, 21);
}

/// A record with no fields is legal and binds nothing.
#[test]
fn empty_record_binds_nothing() {
    let fields: Vec<FieldSpec> = vec![];
    let ops = vertex_attrib_ops(&fields, 0).unwrap();
    assert!(ops.is_empty());
}

/// Two fields on the same location are rejected.
#[test]
fn duplicate_location_is_rejected() {
    let fields = vec![
        FieldSpec {
            location: 3,
            format: int8::format(),
        },
        FieldSpec {
            location: 3,
            format: int8::format(),
        },
    ];
    let err = vertex_attrib_ops(&fields, 2).unwrap_err();
    assert_eq!(err, LayoutError::DuplicateLocation { location: 3 });
}

/// Field widths that do not add up to the record size are rejected, both
/// short and long.
#[test]
fn size_mismatch_is_rejected() {
    let fields = vec![FieldSpec {
        location: 0,
        format: int8::format(),
    }];
    assert_eq!(
        vertex_attrib_ops(&fields, 2).unwrap_err(),
        LayoutError::SizeMismatch { declared: 2 }
    );
    assert_eq!(
        vertex_attrib_ops(&fields, 0).unwrap_err(),
        LayoutError::SizeMismatch { declared: 0 }
    );
    assert!(vertex_attrib_ops(&fields, 1).is_ok());
}
