use vstd::prelude::*;

verus! {

/// Bytes per particle instance in the vertex buffer: five vectors of four
/// 32-bit floats.
pub const INSTANCE_STRIDE: u64 = 80;

/// Bytes that one instance attribute (four 32-bit floats) takes.
pub const ATTRIBUTE_SIZE: u64 = 16;

/// Where one instance attribute lies in an instance and which shader input reads it.
#[derive(Clone, Copy, Debug, PartialEq, Eq, Structural)]
pub struct InstanceAttribute {
    pub offset: u64,
    pub shader_location: u32,
}

/// The `k`-th instance attribute: position and angle, scale and lifetime,
/// color, velocity direction and trail offset, and a reserved slot.
pub open spec fn instance_attribute(k: int) -> InstanceAttribute {
    InstanceAttribute { offset: (16 * k) as u64, shader_location: k as u32 }
}

/// The attributes of the per-instance vertex buffer, in shader-location order.
pub fn instance_attributes() -> (attrs: Vec<InstanceAttribute>)
    ensures
        attrs@.len() == 5,
        forall|k: int| 0 <= k < 5 ==> #[trigger] attrs@[k] == instance_attribute(k),
{
    let mut attrs: Vec<InstanceAttribute> = Vec::new();
    let mut k: u32 = 0;
    while k < 5
        invariant
            k <= 5,
            attrs@.len() == k,
            forall|j: int| 0 <= j < k ==> #[trigger] attrs@[j] == instance_attribute(j),
        decreases 5 - k,
    {
        attrs.push(InstanceAttribute { offset: ATTRIBUTE_SIZE * (k as u64), shader_location: k });
        k += 1;
    }
    attrs
}

/// The instance attributes lie one after another without gap or overlap, and
/// the last one ends where the instance does.
pub proof fn lemma_instance_attributes_tile_the_stride()
    ensures
        instance_attribute(0).offset == 0,
        forall|k: int| 0 <= k < 4 ==> #[trigger] instance_attribute(k).offset + ATTRIBUTE_SIZE
            == instance_attribute(k + 1).offset,
        instance_attribute(4).offset + ATTRIBUTE_SIZE == INSTANCE_STRIDE,
{
}

/// The six indices of the two triangles that make up a particle's quad.
pub fn quad_indices() -> (indices: Vec<u32>)
    ensures
        indices@ == seq![2u32, 0, 1, 1, 3, 2],
{
    let mut indices: Vec<u32> = Vec::new();
    indices.push(2);
    indices.push(0);
    indices.push(1);
    indices.push(1);
    indices.push(3);
    indices.push(2);
    assert(indices@ =~= seq![2u32, 0, 1, 1, 3, 2]);
    indices
}

} // verus!
