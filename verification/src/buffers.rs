//! The registry of byte buffers, one for each data slot of the compute
//! kernels, and the copy of it that the render stage receives each frame.

use crate::float_bits::{
    F32_DEFAULT_ASPECT, F32_DEFAULT_HEIGHT, F32_DEFAULT_WIDTH, F32_FIVE, F32_FOUR, F32_ONE, F32_TWO,
};
use crate::memory::{cast_words, native_image};
use crate::scene::{flatten_spheres, init_spheres, sphere_words, Sphere};
use vstd::prelude::*;

verus! {

/// The fixed roles that the compute kernels bind resources to.
#[derive(Clone, Copy, Debug, PartialEq, Eq, Structural)]
pub enum BufferType {
    MainTexture,
    CameraPosition,
    CameraDirection,
    ScreenResolution,
    ScreenAspectRatio,
    InverseViewMatrix,
    Spheres,
}

/// Why a write to the registry was turned down.
#[derive(Clone, Copy, Debug, PartialEq, Eq, Structural)]
pub enum BufferError {
    /// The registry holds no buffer for the slot.
    UnknownSlot,
    /// The value does not hold a whole number of the slot's elements.
    PartialElement,
}

impl BufferType {
    /// The binding number of the role.
    pub open spec fn slot(self) -> u32 {
        match self {
            BufferType::MainTexture => 0,
            BufferType::CameraPosition => 1,
            BufferType::CameraDirection => 2,
            BufferType::ScreenResolution => 3,
            BufferType::ScreenAspectRatio => 4,
            BufferType::InverseViewMatrix => 5,
            BufferType::Spheres => 6,
        }
    }

    pub fn binding(&self) -> (b: u32)
        ensures
            b == self.slot(),
    {
        match self {
            BufferType::MainTexture => 0,
            BufferType::CameraPosition => 1,
            BufferType::CameraDirection => 2,
            BufferType::ScreenResolution => 3,
            BufferType::ScreenAspectRatio => 4,
            BufferType::InverseViewMatrix => 5,
            BufferType::Spheres => 6,
        }
    }

    /// The role bound at `binding`, where there is one.
    pub fn from_binding(binding: u32) -> (role: Option<BufferType>)
        ensures
            binding <= 6 <==> role is Some,
            role is Some ==> role.unwrap().slot() == binding,
    {
        if binding == 0 {
            Some(BufferType::MainTexture)
        } else if binding == 1 {
            Some(BufferType::CameraPosition)
        } else if binding == 2 {
            Some(BufferType::CameraDirection)
        } else if binding == 3 {
            Some(BufferType::ScreenResolution)
        } else if binding == 4 {
            Some(BufferType::ScreenAspectRatio)
        } else if binding == 5 {
            Some(BufferType::InverseViewMatrix)
        } else if binding == 6 {
            Some(BufferType::Spheres)
        } else {
            None
        }
    }
}

/// How many 32-bit words one element of the slot's declared type takes: a
/// 3-vector for the camera position and direction, a 2-vector for the
/// resolution, a scalar for the aspect ratio, a 4x4 matrix for the inverse
/// view, a position and a radius for a sphere. A slot without a declared
/// type holds plain words.
pub open spec fn element_words(binding: u32) -> nat {
    if binding == 1 || binding == 2 {
        3
    } else if binding == 3 {
        2
    } else if binding == 5 {
        16
    } else if binding == 6 {
        4
    } else {
        1
    }
}

/// The element size of a slot, in bytes.
pub open spec fn element_size(binding: u32) -> nat {
    4 * element_words(binding)
}

/// The data slots in the order of their declaration. The image slot, 0, is
/// not among them: it holds no buffer.
pub open spec fn declared_slots() -> Seq<u32> {
    seq![1u32, 2u32, 3u32, 5u32, 4u32, 6u32]
}

/// The value that a declared slot holds before its first write.
pub open spec fn initial_words(binding: u32) -> Seq<u32> {
    if binding == 1 || binding == 2 {
        seq![0u32, 0u32, 0u32]
    } else if binding == 3 {
        seq![F32_DEFAULT_WIDTH, F32_DEFAULT_HEIGHT]
    } else if binding == 4 {
        seq![F32_DEFAULT_ASPECT]
    } else if binding == 5 {
        identity_matrix()
    } else {
        sphere_words(init_spheres_spec())
    }
}

/// The 4x4 identity matrix, column by column.
pub open spec fn identity_matrix() -> Seq<u32> {
    Seq::new(16, |i: int| if i % 5 == 0 { F32_ONE } else { 0u32 })
}

/// The spheres of the scene at startup.
pub open spec fn init_spheres_spec() -> Seq<Sphere> {
    seq![
        (Sphere { position: [0u32, 0u32, F32_FIVE], radius: F32_ONE }),
        (Sphere { position: [F32_FOUR, 0u32, F32_FIVE], radius: F32_TWO }),
    ]
}

/// A registry as contracts see it: for each buffer its slot and its bytes.
pub type Slots = Seq<(u32, Seq<u8>)>;

/// `i` is the place of the first buffer of `s` bound at `binding`.
pub open spec fn first_at(s: Slots, binding: u32, i: int) -> bool {
    &&& 0 <= i < s.len()
    &&& s[i].0 == binding
    &&& forall|j: int| 0 <= j < i ==> (#[trigger] s[j]).0 != binding
}

/// `s` has a buffer bound at `binding`.
pub open spec fn holds_slot(s: Slots, binding: u32) -> bool {
    exists|i: int| 0 <= i < s.len() && (#[trigger] s[i]).0 == binding
}

/// `s` after the buffer of `binding` was replaced by one with `bytes`.
pub open spec fn written(s: Slots, binding: u32, bytes: Seq<u8>) -> Slots {
    Seq::new(
        s.len(),
        |i: int|
            if first_at(s, binding, i) {
                (binding, bytes)
            } else {
                s[i]
            },
    )
}

/// `s` after a write of `words` to `binding` was asked for: the write takes
/// place where `s` holds the slot and `words` is a whole number of its
/// elements, and nothing changes otherwise.
pub open spec fn write_result(s: Slots, binding: u32, words: Seq<u32>) -> Slots {
    if holds_slot(s, binding) && words.len() % element_words(binding) == 0 {
        written(s, binding, native_image(words))
    } else {
        s
    }
}

/// `s` after a run of writes, each a slot with its words, asked for in order.
pub open spec fn after_writes(s: Slots, writes: Seq<(u32, Seq<u32>)>) -> Slots
    decreases writes.len(),
{
    if writes.len() == 0 {
        s
    } else {
        after_writes(write_result(s, writes[0].0, writes[0].1), writes.drop_first())
    }
}

/// The slots of `s`, in order.
pub open spec fn slots_of(s: Slots) -> Seq<u32> {
    Seq::new(s.len(), |i: int| s[i].0)
}

/// Every buffer of `s` holds a whole number of its slot's elements.
pub open spec fn whole_elements(s: Slots) -> bool {
    forall|i: int| 0 <= i < s.len() ==> (#[trigger] s[i]).1.len() % element_size(s[i].0) == 0
}

/// `s` has one buffer for each declared slot and no other, each a whole
/// number of elements long.
pub open spec fn well_formed(s: Slots) -> bool {
    slots_of(s) == declared_slots() && whole_elements(s)
}

/// Bytes bound to one slot.
#[derive(Debug)]
pub struct ComputeBuffer {
    pub binding: u32,
    pub bytes: Vec<u8>,
}

impl View for ComputeBuffer {
    type V = (u32, Seq<u8>);

    open spec fn view(&self) -> (u32, Seq<u8>) {
        (self.binding, self.bytes@)
    }
}

impl Clone for ComputeBuffer {
    fn clone(&self) -> (copy: Self)
        ensures
            copy@ == self@,
    {
        ComputeBuffer { binding: self.binding, bytes: copy_bytes(&self.bytes) }
    }
}

/// A fresh vector with the bytes of `bytes`.
pub fn copy_bytes(bytes: &Vec<u8>) -> (copy: Vec<u8>)
    ensures
        copy@ == bytes@,
{
    let mut copy: Vec<u8> = Vec::new();
    let mut i: usize = 0;
    while i < bytes.len()
        invariant
            i <= bytes.len(),
            copy@ == bytes@.subrange(0, i as int),
        decreases bytes.len() - i,
    {
        copy.push(bytes[i]);
        i += 1;
        assert(copy@ == bytes@.subrange(0, i as int));
    }
    assert(bytes@.subrange(0, bytes.len() as int) == bytes@);
    copy
}

impl ComputeBuffer {
    /// A buffer for `binding` whose bytes are the memory image of `vector`,
    /// an array of 32-bit words.
    pub fn new(binding: u32, vector: Vec<u32>) -> (buffer: Self)
        ensures
            buffer@ == (binding, native_image(vector@)),
    {
        ComputeBuffer { binding, bytes: cast_words(&vector) }
    }
}

/// How many words one element of the slot takes.
pub fn element_words_of(binding: u32) -> (n: usize)
    ensures
        n == element_words(binding),
{
    if binding == 1 || binding == 2 {
        3
    } else if binding == 3 {
        2
    } else if binding == 5 {
        16
    } else if binding == 6 {
        4
    } else {
        1
    }
}

/// The registry: one buffer for each data slot.
#[derive(Debug)]
pub struct ComputeBuffers(pub Vec<ComputeBuffer>);

impl View for ComputeBuffers {
    type V = Slots;

    open spec fn view(&self) -> Slots {
        Seq::new(self.0@.len(), |i: int| self.0@[i]@)
    }
}

impl Clone for ComputeBuffers {
    /// A registry with a copy of every buffer, in the same order.
    fn clone(&self) -> (copy: Self)
        ensures
            copy@ == self@,
    {
        let mut buffers: Vec<ComputeBuffer> = Vec::new();
        let mut i: usize = 0;
        while i < self.0.len()
            invariant
                i <= self.0.len(),
                buffers@.len() == i,
                forall|j: int| 0 <= j < i ==> (#[trigger] buffers@[j])@ == self@[j],
            decreases self.0.len() - i,
        {
            buffers.push(self.0[i].clone());
            i += 1;
        }
        let copy = ComputeBuffers(buffers);
        assert(copy@ =~= self@);
        copy
    }
}

impl ComputeBuffers {
    pub fn new(value: Vec<ComputeBuffer>) -> (buffers: Self)
        ensures
            buffers.0 == value,
    {
        ComputeBuffers(value)
    }

    /// The registry has one buffer for each declared slot and every buffer
    /// holds a whole number of elements.
    pub open spec fn wf(&self) -> bool {
        well_formed(self@)
    }

    /// The place of the first buffer bound at `binding`.
    pub fn position(&self, binding: u32) -> (place: Option<usize>)
        ensures
            match place {
                Some(i) => first_at(self@, binding, i as int),
                None => !holds_slot(self@, binding),
            },
    {
        let mut i: usize = 0;
        while i < self.0.len()
            invariant
                i <= self.0.len(),
                forall|j: int| 0 <= j < i ==> (#[trigger] self@[j]).0 != binding,
            decreases self.0.len() - i,
        {
            if self.0[i].binding == binding {
                return Some(i);
            }
            i += 1;
        }
        None
    }

    /// The bytes bound at `binding`; `None` where the registry has no such
    /// slot.
    pub fn bytes_at(&self, binding: u32) -> (bytes: Option<&Vec<u8>>)
        ensures
            bytes is Some <==> holds_slot(self@, binding),
            bytes is Some ==> exists|i: int|
                first_at(self@, binding, i) && bytes.unwrap()@ == (#[trigger] self@[i]).1,
    {
        match self.position(binding) {
            Some(i) => {
                assert(self@[i as int].0 == binding);
                Some(&self.0[i].bytes)
            },
            None => None,
        }
    }

    /// Replaces the buffer of `binding` by the memory image of `new_value`.
    /// A slot that the registry does not hold is turned down, and so is a
    /// value that is no whole number of the slot's elements; the registry is
    /// then left as it was.
    pub fn set_value_at(&mut self, binding: u32, new_value: Vec<u32>) -> (res: Result<
        (),
        BufferError,
    >)
        ensures
            res is Ok <==> holds_slot(old(self)@, binding) && new_value@.len() % element_words(
                binding,
            ) == 0,
            res == Err::<(), BufferError>(BufferError::UnknownSlot) <==> !holds_slot(
                old(self)@,
                binding,
            ),
            res == Err::<(), BufferError>(BufferError::PartialElement) <==> holds_slot(
                old(self)@,
                binding,
            ) && new_value@.len() % element_words(binding) != 0,
            res is Ok ==> final(self)@ == written(old(self)@, binding, native_image(new_value@)),
            res is Err ==> final(self)@ == old(self)@,
            final(self)@ == write_result(old(self)@, binding, new_value@),
            slots_of(final(self)@) == slots_of(old(self)@),
            old(self).wf() ==> final(self).wf(),
    {
        match self.position(binding) {
            None => Err(BufferError::UnknownSlot),
            Some(i) => {
                assert(self@[i as int].0 == binding);
                if new_value.len() % element_words_of(binding) != 0 {
                    return Err(BufferError::PartialElement);
                }
                let buffer = ComputeBuffer::new(binding, new_value);
                self.0.set(i, buffer);
                proof {
                    let before = old(self)@;
                    let bytes = native_image(new_value@);
                    assert(self@ =~= written(before, binding, bytes));
                    lemma_write_keeps_layout(before, binding, new_value@);
                }
                Ok(())
            },
        }
    }

    /// Whether the registry has exactly the declared slots, each with a whole
    /// number of elements.
    pub fn matches_declaration(&self) -> (yes: bool)
        ensures
            yes == self.wf(),
    {
        let declared: [u32; 6] = [1, 2, 3, 5, 4, 6];
        assert(declared@ =~= declared_slots());
        if self.0.len() != 6 {
            assert(slots_of(self@).len() != declared_slots().len());
            return false;
        }
        let mut i: usize = 0;
        while i < 6
            invariant
                i <= 6,
                self.0.len() == 6,
                declared@ == declared_slots(),
                forall|j: int|
                    0 <= j < i ==> (#[trigger] self@[j]).0 == declared_slots()[j]
                        && self@[j].1.len() % element_size(self@[j].0) == 0,
            decreases 6 - i,
        {
            let buffer = &self.0[i];
            assert(self@[i as int] == buffer@);
            if buffer.binding != declared[i] {
                assert(slots_of(self@)[i as int] != declared_slots()[i as int]);
                return false;
            }
            if buffer.bytes.len() % (4 * element_words_of(buffer.binding)) != 0 {
                return false;
            }
            i += 1;
        }
        assert(slots_of(self@) =~= declared_slots());
        true
    }
}

/// A write of whole elements to a slot keeps the slots of the registry as
/// they were, in number and order, and keeps every buffer a whole number of
/// its slot's elements long.
pub proof fn lemma_write_keeps_layout(s: Slots, binding: u32, words: Seq<u32>)
    requires
        words.len() % element_words(binding) == 0,
    ensures
        slots_of(written(s, binding, native_image(words))) == slots_of(s),
        whole_elements(s) ==> whole_elements(written(s, binding, native_image(words))),
        well_formed(s) ==> well_formed(written(s, binding, native_image(words))),
{
    let after = written(s, binding, native_image(words));
    assert(slots_of(after) =~= slots_of(s));
    let n = words.len() as int;
    let e = element_words(binding) as int;
    vstd::arithmetic::div_mod::lemma_truncate_middle(n, 4, e);
    assert(native_image(words).len() == 4 * n);
}

/// A write to one slot leaves the registry holding the slots it held.
pub proof fn lemma_written_holds(s: Slots, binding: u32, bytes: Seq<u8>, other: u32)
    ensures
        holds_slot(written(s, binding, bytes), other) == holds_slot(s, other),
{
    let after = written(s, binding, bytes);
    if holds_slot(s, other) {
        let i = choose|i: int| 0 <= i < s.len() && (#[trigger] s[i]).0 == other;
        assert(after[i].0 == other);
    }
    if holds_slot(after, other) {
        let i = choose|i: int| 0 <= i < after.len() && (#[trigger] after[i]).0 == other;
        assert(s[i].0 == other);
    }
}

/// A registry with the declared slots holds the six data slots, 1 to 6, and
/// no other; the resolution is at its third place.
pub proof fn lemma_declared_slots_are_held(s: Slots)
    requires
        slots_of(s) == declared_slots(),
    ensures
        forall|binding: u32| #[trigger] holds_slot(s, binding) <==> 1 <= binding <= 6,
        first_at(s, 3, 2),
{
    assert(slots_of(s).len() == 6);
    assert forall|i: int| 0 <= i < 6 implies (#[trigger] s[i]).0 == declared_slots()[i] by {
        assert(slots_of(s)[i] == s[i].0);
    }
    assert(s[0].0 == 1 && s[1].0 == 2 && s[2].0 == 3 && s[3].0 == 5 && s[4].0 == 4 && s[5].0 == 6);
    assert forall|binding: u32| #[trigger] holds_slot(s, binding) implies 1 <= binding <= 6 by {
        let i = choose|i: int| 0 <= i < s.len() && (#[trigger] s[i]).0 == binding;
        assert(s[i].0 == declared_slots()[i]);
    }
}

/// Whatever writes are asked for, in whatever order, a registry with one
/// buffer for each declared slot, each a whole number of elements long, stays
/// one.
pub proof fn lemma_writes_keep_layout(s: Slots, writes: Seq<(u32, Seq<u32>)>)
    ensures
        slots_of(after_writes(s, writes)) == slots_of(s),
        well_formed(s) ==> well_formed(after_writes(s, writes)),
    decreases writes.len(),
{
    if writes.len() > 0 {
        let next = write_result(s, writes[0].0, writes[0].1);
        if holds_slot(s, writes[0].0) && writes[0].1.len() % element_words(writes[0].0) == 0 {
            lemma_write_keeps_layout(s, writes[0].0, writes[0].1);
        }
        lemma_writes_keep_layout(next, writes.drop_first());
    }
}

/// What was written to a slot is what is read back from it: the memory image
/// of the value, byte for byte, while every other buffer is as it was.
pub proof fn lemma_read_after_write(s: Slots, binding: u32, words: Seq<u32>, i: int)
    requires
        first_at(s, binding, i),
    ensures
        first_at(written(s, binding, native_image(words)), binding, i),
        written(s, binding, native_image(words))[i].1 == native_image(words),
        forall|j: int|
            0 <= j < s.len() && j != i ==> #[trigger] written(s, binding, native_image(words))[j]
                == s[j],
{
}

/// The registry at startup: every declared slot with its initial value.
pub fn init_buffers() -> (buffers: ComputeBuffers)
    ensures
        buffers.wf(),
        forall|i: int|
            0 <= i < 6 ==> (#[trigger] buffers@[i]).1 == native_image(
                initial_words(declared_slots()[i]),
            ),
{
    let mut identity: Vec<u32> = Vec::new();
    let mut k: usize = 0;
    while k < 16
        invariant
            k <= 16,
            identity@ == identity_matrix().subrange(0, k as int),
        decreases 16 - k,
    {
        identity.push(if k % 5 == 0 { F32_ONE } else { 0 });
        k += 1;
        assert(identity@ =~= identity_matrix().subrange(0, k as int));
    }
    assert(identity@ =~= identity_matrix());
    let spheres = flatten_spheres(&init_spheres());
    let position: Vec<u32> = vec![0, 0, 0];
    let direction: Vec<u32> = vec![0, 0, 0];
    let resolution: Vec<u32> = vec![F32_DEFAULT_WIDTH, F32_DEFAULT_HEIGHT];
    let aspect: Vec<u32> = vec![F32_DEFAULT_ASPECT];
    assert(position@ =~= initial_words(1));
    assert(direction@ =~= initial_words(2));
    assert(resolution@ =~= initial_words(3));
    assert(aspect@ =~= initial_words(4));
    let buffers = ComputeBuffers::new(
        vec![
            ComputeBuffer::new(BufferType::CameraPosition.binding(), position),
            ComputeBuffer::new(BufferType::CameraDirection.binding(), direction),
            ComputeBuffer::new(BufferType::ScreenResolution.binding(), resolution),
            ComputeBuffer::new(BufferType::InverseViewMatrix.binding(), identity),
            ComputeBuffer::new(BufferType::ScreenAspectRatio.binding(), aspect),
            ComputeBuffer::new(BufferType::Spheres.binding(), spheres),
        ],
    );
    assert(slots_of(buffers@) =~= declared_slots());
    assert(whole_elements(buffers@)) by {
        assert(sphere_words(init_spheres_spec()).len() == 8);
        assert(identity_matrix().len() == 16);
        assert(buffers@[0] == (1u32, native_image(initial_words(1))));
        assert(buffers@[1] == (2u32, native_image(initial_words(2))));
        assert(buffers@[2] == (3u32, native_image(initial_words(3))));
        assert(buffers@[3] == (5u32, native_image(initial_words(5))));
        assert(buffers@[4] == (4u32, native_image(initial_words(4))));
        assert(buffers@[5] == (6u32, native_image(initial_words(6))));
        assert(buffers@.len() == 6);
        assert(initial_words(1).len() == 3 && initial_words(3).len() == 2);
        assert(initial_words(4).len() == 1);
        assert forall|i: int| 0 <= i < buffers@.len() implies (#[trigger] buffers@[i]).1.len()
            % element_size(buffers@[i].0) == 0 by {
            if i == 0 {
                assert(buffers@[0].1.len() == 12 && element_size(1) == 12);
                assert(12nat % 12nat == 0);
            } else if i == 1 {
                assert(buffers@[1].1.len() == 12 && element_size(2) == 12);
                assert(12nat % 12nat == 0);
            } else if i == 2 {
                assert(buffers@[2].1.len() == 8 && element_size(3) == 8);
                assert(8nat % 8nat == 0);
            } else if i == 3 {
                assert(buffers@[3].1.len() == 64 && element_size(5) == 64);
                assert(64nat % 64nat == 0);
            } else if i == 4 {
                assert(buffers@[4].1.len() == 4 && element_size(4) == 4);
                assert(4nat % 4nat == 0);
            } else {
                assert(buffers@[5].1.len() == 32 && element_size(6) == 16);
                assert(32nat % 16nat == 0);
            }
        }
    }
    buffers
}

/// The copy of the registry that the render stage owns for one frame: equal
/// to the simulation stage's registry in every slot and byte, and sharing
/// nothing with it.
pub fn update_buffers(main_world: &ComputeBuffers) -> (copy: ComputeBuffers)
    ensures
        copy@ == main_world@,
{
    main_world.clone()
}

} // verus!
