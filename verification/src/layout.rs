//! Vertex layout descriptor generation.
//!
//! A vertex record is described by an ordered list of fields, each carrying
//! a target attribute location and the binding contract of its layout type
//! (component count, scalar kind, normalization flag, byte size).  From
//! that registration [`vertex_attrib_ops`] derives the ordered sequence of
//! attribute-binding operations the driver needs: a running byte offset,
//! the record's total byte size as the repeating stride, and the field's
//! own format.  Records whose declared field widths do not add up to the
//! record's byte size, or whose locations collide, are rejected before any
//! drawing code can run on them.

use vstd::prelude::*;

verus! {

/// The scalar kind of one attribute's driver-side components.
#[derive(Clone, Copy, Debug, PartialEq, Eq, Structural)]
pub enum ScalarKind {
    /// 32-bit floating point components.
    Float,
    /// Signed 8-bit integer components.
    Byte,
    /// One packed 32-bit word holding a 2+10+10+10 reversed quad.
    UInt2101010Rev,
}

/// The binding contract a primitive layout type declares for itself.
#[derive(Clone, Copy, Debug, PartialEq, Eq, Structural)]
pub struct AttribFormat {
    /// How many driver-side components the field represents (1 to 4).
    pub components: u32,
    /// The scalar kind of those components.
    pub scalar: ScalarKind,
    /// Whether integer components are normalized to floats on read.
    pub normalized: bool,
    /// The field's byte size inside the record.
    pub size: u32,
}

impl AttribFormat {
    /// A format is well-formed when it has 1 to 4 components of at least
    /// one byte in total.
    pub open spec fn valid(self) -> bool {
        1 <= self.components <= 4 && 1 <= self.size
    }
}

/// One registered field of a vertex record: its annotated attribute
/// location and the format its layout type declares.
#[derive(Clone, Copy, Debug, PartialEq, Eq, Structural)]
pub struct FieldSpec {
    pub location: u32,
    pub format: AttribFormat,
}

/// One attribute-binding operation, ready to hand to the driver.
#[derive(Clone, Copy, Debug, PartialEq, Eq, Structural)]
pub struct AttribOp {
    pub location: u32,
    pub components: u32,
    pub scalar: ScalarKind,
    pub normalized: bool,
    /// The record's total byte size: the repeat distance between records.
    pub stride: u32,
    /// The field's byte offset from the start of the record.
    pub offset: u32,
}

/// Why a field registration cannot describe a record.
#[derive(Clone, Copy, Debug, PartialEq, Eq, Structural)]
pub enum LayoutError {
    /// Two fields carry the same attribute location.
    DuplicateLocation { location: u32 },
    /// The declared field widths do not add up to the record's byte size.
    SizeMismatch { declared: u32 },
}

/// The sum of the declared byte sizes of all fields.
pub open spec fn total_size(fields: Seq<FieldSpec>) -> int
    decreases fields.len(),
{
    if fields.len() == 0 {
        0
    } else {
        total_size(fields.drop_last()) + fields.last().format.size
    }
}

/// The running byte offset in front of field `i`: the sum of the sizes of
/// the fields declared before it.
pub open spec fn offset_of(fields: Seq<FieldSpec>, i: int) -> int {
    total_size(fields.take(i))
}

/// No two fields carry the same attribute location.
pub open spec fn locations_unique(fields: Seq<FieldSpec>) -> bool {
    forall|i: int, j: int|
        0 <= i < j < fields.len() ==> fields[i].location != fields[j].location
}

/// The binding operation derived for field `i` of a record whose total
/// byte size is `stride`.
pub open spec fn op_for(fields: Seq<FieldSpec>, stride: u32, i: int) -> AttribOp {
    AttribOp {
        location: fields[i].location,
        components: fields[i].format.components,
        scalar: fields[i].format.scalar,
        normalized: fields[i].format.normalized,
        stride,
        offset: offset_of(fields, i) as u32,
    }
}

/// The full derived binding-operation sequence.
pub open spec fn ops_for(fields: Seq<FieldSpec>, stride: u32) -> Seq<AttribOp> {
    Seq::new(fields.len(), |i: int| op_for(fields, stride, i))
}

/// Extending the field list by one field grows the total by that field's
/// size.
proof fn lemma_total_size_take_step(fields: Seq<FieldSpec>, i: int)
    requires
        0 <= i < fields.len(),
    ensures
        total_size(fields.take(i + 1)) == total_size(fields.take(i)) + fields[i].format.size,
{
    let t = fields.take(i + 1);
    assert(t.drop_last() =~= fields.take(i));
    assert(t.last() == fields[i]);
}

/// Between two cut points the total grows by at least one byte per field,
/// and never shrinks.
proof fn lemma_total_size_monotone(fields: Seq<FieldSpec>, i: int, j: int)
    requires
        0 <= i <= j <= fields.len(),
        forall|k: int| 0 <= k < fields.len() ==> (#[trigger] fields[k]).format.valid(),
    ensures
        total_size(fields.take(i)) + (j - i) <= total_size(fields.take(j)),
    decreases j - i,
{
    if i < j {
        lemma_total_size_monotone(fields, i, j - 1);
        lemma_total_size_take_step(fields, j - 1);
    }
}

/// Derives the ordered attribute-binding operations for a record.
///
/// `fields` lists the record's fields in declaration order; `stride` is
/// the record's total byte size.  On success the result has one operation
/// per field, offsets strictly increasing from zero, and the last offset
/// plus the last field's size equal to `stride`, so the operations
/// partition the record exactly.
pub fn vertex_attrib_ops(fields: &Vec<FieldSpec>, stride: u32) -> (r: Result<
    Vec<AttribOp>,
    LayoutError,
>)
    requires
        forall|i: int| 0 <= i < fields@.len() ==> (#[trigger] fields@[i]).format.valid(),
    ensures
        r is Ok <==> locations_unique(fields@) && total_size(fields@) == stride,
        r matches Ok(ops) ==> ops@ == ops_for(fields@, stride),
        r matches Ok(ops) ==> ops@.len() == fields@.len(),
        r matches Ok(ops) ==> forall|i: int, j: int|
            0 <= i < j < ops@.len() ==> ops@[i].offset < ops@[j].offset,
        r matches Ok(ops) ==> (ops@.len() > 0 ==> ops@.last().offset
            + fields@.last().format.size == stride),
        !locations_unique(fields@) ==> (r matches Err(e)
            && e matches LayoutError::DuplicateLocation { location } && exists|i: int, j: int|
            0 <= i < j < fields@.len() && fields@[i].location == location
                && fields@[j].location == location),
        (locations_unique(fields@) && total_size(fields@) != stride) ==> r == Err::<
            Vec<AttribOp>,
            LayoutError,
        >(LayoutError::SizeMismatch { declared: stride }),
{
    let n = fields.len();
    // Reject colliding attribute locations.
    let mut i: usize = 0;
    while i < n
        invariant
            n == fields@.len(),
            i <= n,
            forall|a: int, b: int|
                0 <= a < i && a < b < n ==> fields@[a].location != fields@[b].location,
        decreases n - i,
    {
        let mut j: usize = i + 1;
        while j < n
            invariant
                n == fields@.len(),
                i < n,
                i < j,
                forall|b: int| i < b < j ==> fields@[i as int].location != fields@[b].location,
            decreases n - j,
        {
            if fields[i].location == fields[j].location {
                return Err(LayoutError::DuplicateLocation { location: fields[i].location });
            }
            j += 1;
        }
        i += 1;
    }
    assert(locations_unique(fields@));
    // Check that the declared field widths add up to the record size.
    let mut acc: u64 = 0;
    let mut i: usize = 0;
    while i < n
        invariant
            n == fields@.len(),
            i <= n,
            locations_unique(fields@),
            forall|k: int| 0 <= k < n ==> (#[trigger] fields@[k]).format.valid(),
            acc == total_size(fields@.take(i as int)),
            acc <= stride,
        decreases n - i,
    {
        let s = fields[i].format.size as u64;
        proof {
            lemma_total_size_take_step(fields@, i as int);
        }
        if acc + s > stride as u64 {
            proof {
                lemma_total_size_monotone(fields@, i + 1, fields@.len() as int);
                assert(fields@.take(fields@.len() as int) =~= fields@);
            }
            return Err(LayoutError::SizeMismatch { declared: stride });
        }
        acc = acc + s;
        i += 1;
    }
    proof {
        assert(fields@.take(n as int) =~= fields@);
    }
    if acc != stride as u64 {
        return Err(LayoutError::SizeMismatch { declared: stride });
    }
    // Emit one operation per field, carrying the running offset.
    let mut ops: Vec<AttribOp> = Vec::new();
    let mut offset: u32 = 0;
    let mut i: usize = 0;
    while i < n
        invariant
            n == fields@.len(),
            i <= n,
            forall|k: int| 0 <= k < n ==> (#[trigger] fields@[k]).format.valid(),
            total_size(fields@) == stride,
            offset == total_size(fields@.take(i as int)),
            offset <= stride,
            ops@ =~= ops_for(fields@, stride).take(i as int),
        decreases n - i,
    {
        let f = fields[i];
        proof {
            lemma_total_size_take_step(fields@, i as int);
            lemma_total_size_monotone(fields@, i + 1, fields@.len() as int);
            assert(fields@.take(fields@.len() as int) =~= fields@);
        }
        ops.push(
            AttribOp {
                location: f.location,
                components: f.format.components,
                scalar: f.format.scalar,
                normalized: f.format.normalized,
                stride,
                offset,
            },
        );
        offset = offset + f.format.size;
        i += 1;
        proof {
            assert(ops@ =~= ops_for(fields@, stride).take(i as int));
        }
    }
    proof {
        assert(ops@ =~= ops_for(fields@, stride));
        assert forall|a: int, b: int| 0 <= a < b < ops@.len() implies ops@[a].offset
            < ops@[b].offset by {
            lemma_total_size_monotone(fields@, a, b);
            lemma_total_size_monotone(fields@, 0, a);
            lemma_total_size_monotone(fields@, b, fields@.len() as int);
            assert(fields@.take(fields@.len() as int) =~= fields@);
        };
        if fields@.len() > 0 {
            lemma_total_size_take_step(fields@, fields@.len() - 1);
            assert(fields@.take(fields@.len() as int) =~= fields@);
            lemma_total_size_monotone(fields@, 0, fields@.len() - 1);
        }
    }
    Ok(ops)
}

} // verus!
