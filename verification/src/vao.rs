//! The vertex-array model: named attributes bound to buffer handles, and the
//! slot layout each attribute occupies in the shader.  A scalar or vector
//! array takes one slot; a matrix array is split into one slot per column,
//! because no single attribute is wider than four components.  Buffer handles
//! are allocated by the model and stand for the device buffers the caller
//! creates alongside.
use vstd::prelude::*;

use crate::shader::max_attribute_location;
use crate::shader::ShaderInterface;
use crate::names::NameMap;

verus! {

#[derive(Debug)]
pub enum VAOError {
    VectorLength,
    SetAttributePointer,
    AttributeAlreadyExists(String),
    FailedToGetActiveProgram,
    CStringConversion(String),
    FailedIDConversion,
    AttributeNotFound(String),
    CouldNotFindAttribute(String),
}

impl VAOError {
    /// A fixed description of the failure; the carried strings hold the
    /// particulars.
    pub fn message(&self) -> (r: &'static str)
        ensures
            (self is AttributeNotFound ==> r@
                == "attribute could not be found in the shader"@),
            (self is CouldNotFindAttribute ==> r@
                == "attribute is not bound on this vertex array"@),
    {
        match self {
            VAOError::VectorLength => "length does not fit the device's index type",
            VAOError::SetAttributePointer => "could not set the attribute pointer",
            VAOError::AttributeAlreadyExists(_) => "attribute already exists for this vertex array",
            VAOError::FailedToGetActiveProgram => "could not get the active program",
            VAOError::CStringConversion(_) => "could not convert the name for the device",
            VAOError::FailedIDConversion => "could not convert a device identifier",
            VAOError::AttributeNotFound(_) => "attribute could not be found in the shader",
            VAOError::CouldNotFindAttribute(_) => "attribute is not bound on this vertex array",
        }
    }
}

/// An attribute's shader location and the model buffer handle backing it.
#[derive(Clone, Copy, PartialEq, Eq, Structural, Debug)]
pub struct Attribute {
    pub location: u32,
    pub buffer_id: u32,
}

/// The shapes of per-vertex and per-instance data an attribute can carry.
#[derive(Clone, Copy, PartialEq, Eq, Structural, Debug)]
pub enum AttributeKind {
    Scalar,
    Vec2,
    Vec3,
    Vec4,
    Mat3,
    Mat4,
}

impl AttributeKind {
    /// How many consecutive attribute slots the kind occupies: one per
    /// column of a matrix, one otherwise.
    pub open spec fn slot_count(self) -> u32 {
        match self {
            AttributeKind::Mat3 => 3,
            AttributeKind::Mat4 => 4,
            _ => 1,
        }
    }

    /// Components read per slot.
    pub open spec fn components(self) -> u32 {
        match self {
            AttributeKind::Scalar => 1,
            AttributeKind::Vec2 => 2,
            AttributeKind::Vec3 => 3,
            AttributeKind::Vec4 => 4,
            AttributeKind::Mat3 => 3,
            AttributeKind::Mat4 => 4,
        }
    }

    /// Bytes from one element of the array to the next: the element's size.
    pub open spec fn stride_bytes(self) -> u32 {
        match self {
            AttributeKind::Scalar => 4,
            AttributeKind::Vec2 => 8,
            AttributeKind::Vec3 => 12,
            AttributeKind::Vec4 => 16,
            AttributeKind::Mat3 => 36,
            AttributeKind::Mat4 => 64,
        }
    }

    /// Bytes from one column of an element to the next.
    pub open spec fn column_step(self) -> u32 {
        match self {
            AttributeKind::Mat3 => 12,
            AttributeKind::Mat4 => 16,
            _ => 0,
        }
    }

    pub fn slot_count_exec(&self) -> (r: u32)
        ensures
            r == self.slot_count(),
    {
        match self {
            AttributeKind::Mat3 => 3,
            AttributeKind::Mat4 => 4,
            _ => 1,
        }
    }

    pub fn components_exec(&self) -> (r: u32)
        ensures
            r == self.components(),
    {
        match self {
            AttributeKind::Scalar => 1,
            AttributeKind::Vec2 => 2,
            AttributeKind::Vec3 => 3,
            AttributeKind::Vec4 => 4,
            AttributeKind::Mat3 => 3,
            AttributeKind::Mat4 => 4,
        }
    }

    pub fn stride_bytes_exec(&self) -> (r: u32)
        ensures
            r == self.stride_bytes(),
    {
        match self {
            AttributeKind::Scalar => 4,
            AttributeKind::Vec2 => 8,
            AttributeKind::Vec3 => 12,
            AttributeKind::Vec4 => 16,
            AttributeKind::Mat3 => 36,
            AttributeKind::Mat4 => 64,
        }
    }

    pub fn column_step_exec(&self) -> (r: u32)
        ensures
            r == self.column_step(),
    {
        match self {
            AttributeKind::Mat3 => 12,
            AttributeKind::Mat4 => 16,
            _ => 0,
        }
    }
}

/// One enabled attribute slot: where it binds, how wide it reads, how far
/// apart consecutive elements lie, at which byte offset its column starts,
/// and its step rate (0 per vertex, 1 per instance).
#[derive(Clone, Copy, PartialEq, Eq, Structural, Debug)]
pub struct AttributeSlot {
    pub location: u32,
    pub components: u32,
    pub stride: u32,
    pub offset: u32,
    pub divisor: u32,
}

/// The slot at a column index of an attribute laid out from a base location.
pub open spec fn slot_at(base: u32, kind: AttributeKind, instanced: bool, i: int) -> AttributeSlot {
    AttributeSlot {
        location: (base + i) as u32,
        components: kind.components(),
        stride: kind.stride_bytes(),
        offset: (i * kind.column_step()) as u32,
        divisor: if instanced {
            1u32
        } else {
            0u32
        },
    }
}

/// The whole layout of an attribute: consecutive locations from the base,
/// one slot per column, offsets one column step apart.
pub open spec fn slots_of(base: u32, kind: AttributeKind, instanced: bool) -> Seq<AttributeSlot> {
    Seq::new(kind.slot_count() as nat, |i: int| slot_at(base, kind, instanced, i))
}

/// Computes the slot layout for an attribute bound at a base location.
pub fn attribute_slots(base: u32, kind: AttributeKind, instanced: bool) -> (r: Vec<AttributeSlot>)
    requires
        base <= max_attribute_location(),
    ensures
        r@ == slots_of(base, kind, instanced),
{
    let n = kind.slot_count_exec();
    let components = kind.components_exec();
    let stride = kind.stride_bytes_exec();
    let step = kind.column_step_exec();
    let divisor: u32 = if instanced {
        1
    } else {
        0
    };
    let mut r: Vec<AttributeSlot> = Vec::new();
    let mut i: u32 = 0;
    while i < n
        invariant
            base <= max_attribute_location(),
            i <= n,
            n == kind.slot_count(),
            components == kind.components(),
            stride == kind.stride_bytes(),
            step == kind.column_step(),
            divisor == (if instanced {
                1u32
            } else {
                0u32
            }),
            r@.len() == i,
            forall|j: int| 0 <= j < i ==> r@[j] == slot_at(base, kind, instanced, j),
        decreases n - i,
    {
        r.push(
            AttributeSlot {
                location: base + i,
                components,
                stride,
                offset: i * step,
                divisor,
            },
        );
        i += 1;
    }
    proof {
        assert(r@ =~= slots_of(base, kind, instanced));
    }
    r
}

/// The element-index buffer: its model buffer handle and how many indices it
/// holds.
#[derive(Clone, Copy, PartialEq, Eq, Structural, Debug)]
pub struct ElementIndices {
    pub buffer_id: u32,
    pub buffer_length: i32,
}

/// What binding an attribute asks of the caller: the attribute's record, the
/// slot layout to enable, and whether a fresh buffer must be created for the
/// returned handle.
pub struct AttributeSetup {
    pub attribute: Attribute,
    pub slots: Vec<AttributeSlot>,
    pub allocated: bool,
}

/// The vertex-array model.  Attribute records are created lazily on first
/// bind and never recreated for the same name; each fresh one takes the next
/// model buffer handle.
pub struct VAO {
    pub id: u32,
    pub program_id: u32,
    pub elements: ElementIndices,
    pub attributes: NameMap<Attribute>,
    pub next_buffer_handle: u32,
}

impl VAO {
    pub closed spec fn wf(self) -> bool {
        &&& self.attributes.wf()
        &&& forall|k: Seq<char>|
            self.attributes@.contains_key(k) ==> #[trigger] self.attributes@[k].location
                <= max_attribute_location()
    }

    /// The attributes bound so far, by name.
    pub closed spec fn attributes_view(self) -> Map<Seq<char>, Attribute> {
        self.attributes@
    }

    /// How many model buffer handles this vertex array has given out; the
    /// element buffer is the first.
    pub closed spec fn buffers_allocated(self) -> int {
        self.next_buffer_handle as int
    }

    pub fn buffer_count(&self) -> (r: u32)
        ensures
            r == self.buffers_allocated(),
    {
        self.next_buffer_handle
    }

    /// A fresh vertex array over an element-index list.  The element buffer
    /// takes handle zero; the index count must fit the device's signed count
    /// type, else `VectorLength` comes back.
    pub fn new(program_id: u32, vao_id: u32, indices: &Vec<u32>) -> (r: Result<VAO, VAOError>)
        ensures
            (r is Ok <==> indices@.len() <= i32::MAX),
            (r matches Ok(v) ==> v.wf() && v.id == vao_id && v.program_id == program_id
                && v.elements == (ElementIndices {
                buffer_id: 0u32,
                buffer_length: indices@.len() as i32,
            }) && v.attributes_view() == Map::<Seq<char>, Attribute>::empty()
                && v.buffers_allocated() == 1),
            (r is Err ==> r == Err::<VAO, VAOError>(VAOError::VectorLength)),
    {
        if indices.len() > i32::MAX as usize {
            return Err(VAOError::VectorLength);
        }
        let buffer_length = indices.len() as i32;
        Ok(
            VAO {
                id: vao_id,
                program_id,
                elements: ElementIndices { buffer_id: 0, buffer_length },
                attributes: NameMap::new(),
                next_buffer_handle: 1,
            },
        )
    }

    /// Binds a named attribute.  The record is reused if the name was bound
    /// before; otherwise the linked shader must declare the name, and a
    /// fresh buffer handle is taken for it.  When the name is absent from
    /// the shader, `AttributeNotFound` comes back and nothing is allocated
    /// or changed.
    pub fn add_attribute(
        &mut self,
        interface: &ShaderInterface,
        name: &str,
        kind: AttributeKind,
        instanced: bool,
    ) -> (r: Result<AttributeSetup, VAOError>)
        requires
            old(self).wf(),
            interface.wf(),
            old(self).buffers_allocated() < u32::MAX,
        ensures
            final(self).wf(),
            final(self).id == old(self).id,
            final(self).program_id == old(self).program_id,
            final(self).elements == old(self).elements,
            (r is Ok <==> old(self).attributes_view().contains_key(name@)
                || interface.attributes_view().contains_key(name@)),
            (r matches Err(e) ==> *final(self) == *old(self) && (e matches
            VAOError::AttributeNotFound(n) && n@ == name@)),
            (r matches Ok(s) ==> s.slots@ == slots_of(s.attribute.location, kind, instanced)
                && final(self).attributes_view() == old(self).attributes_view().insert(
                name@,
                s.attribute,
            )),
            (r matches Ok(s) ==> (old(self).attributes_view().contains_key(name@) ==> !s.allocated
                && s.attribute == old(self).attributes_view()[name@] && *final(self) == *old(self))),
            (r matches Ok(s) ==> (!old(self).attributes_view().contains_key(name@) ==> s.allocated
                && s.attribute == (Attribute {
                location: interface.attributes_view()[name@],
                buffer_id: old(self).next_buffer_handle,
            }) && final(self).buffers_allocated() == old(self).buffers_allocated() + 1)),
    {
        let cached = self.attributes.get(name);
        match cached {
            Some(attribute) => {
                let attribute = *attribute;
                let slots = attribute_slots(attribute.location, kind, instanced);
                proof {
                    assert(self.attributes@ =~= self.attributes@.insert(name@, attribute));
                }
                Ok(AttributeSetup { attribute, slots, allocated: false })
            },
            None => {
                match interface.attribute(name) {
                    None => Err(VAOError::AttributeNotFound(name.to_owned())),
                    Some(location) => {
                        let attribute = Attribute { location, buffer_id: self.next_buffer_handle };
                        self.next_buffer_handle = self.next_buffer_handle + 1;
                        self.attributes.insert(name.to_owned(), attribute);
                        let slots = attribute_slots(location, kind, instanced);
                        Ok(AttributeSetup { attribute, slots, allocated: true })
                    },
                }
            },
        }
    }

    /// Rebinds an attribute that was bound before, for re-upload of its
    /// data; an unbound name gets `CouldNotFindAttribute` and nothing
    /// changes.
    pub fn update_attribute(&self, name: &str, kind: AttributeKind, instanced: bool) -> (r: Result<
        AttributeSetup,
        VAOError,
    >)
        requires
            self.wf(),
        ensures
            (r is Ok <==> self.attributes_view().contains_key(name@)),
            (r matches Err(e) ==> (e matches VAOError::CouldNotFindAttribute(n) && n@ == name@)),
            (r matches Ok(s) ==> !s.allocated && s.attribute == self.attributes_view()[name@]
                && s.slots@ == slots_of(s.attribute.location, kind, instanced)),
    {
        match self.attributes.get(name) {
            Some(attribute) => {
                let attribute = *attribute;
                let slots = attribute_slots(attribute.location, kind, instanced);
                Ok(AttributeSetup { attribute, slots, allocated: false })
            },
            None => Err(VAOError::CouldNotFindAttribute(name.to_owned())),
        }
    }
}

} // verus!
