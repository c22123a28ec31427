//! Push constants: named scalars that travel with a draw call, one after the
//! other in the order in which they were declared.

use vstd::prelude::*;
use crate::config::{section_loadable, ConfigDocument, ConfigEntry};
use crate::utils::{convert_value_to_bytes, value_bytes, UniformValue};

verus! {

/// A named value that can be sent as a push constant.
pub trait PushConstant {
    /// The bytes that are sent.
    spec fn spec_bytes(&self) -> Seq<u8>;

    /// The declared name.
    spec fn spec_name(&self) -> Seq<char>;

    /// Number of bytes that are sent.
    fn size(&self) -> (size: usize)
        ensures
            size == self.spec_bytes().len(),
    ;

    /// The declared name.
    fn name(&self) -> (name: &str)
        ensures
            name@ == self.spec_name(),
    ;

    /// The bytes that are sent.
    fn bytes(&self) -> (bytes: Vec<u8>)
        ensures
            bytes@ == self.spec_bytes(),
    ;
}

/// A push constant that holds one scalar.
#[derive(Debug, PartialEq, Eq)]
pub struct TypedPushConstant {
    /// The data.
    pub value: UniformValue,
    /// Name as declared in the document.
    pub name: String,
}

/// What a `TypedPushConstant` holds.
pub struct PushConstantView {
    pub value: UniformValue,
    pub name: Seq<char>,
}

impl View for TypedPushConstant {
    type V = PushConstantView;

    open spec fn view(&self) -> PushConstantView {
        PushConstantView { value: self.value, name: self.name@ }
    }
}

impl TypedPushConstant {
    /// The push constant named `name` that holds `value`.
    pub fn new(value: UniformValue, name: String) -> (constant: TypedPushConstant)
        ensures
            constant@ == (PushConstantView { value, name: name@ }),
    {
        TypedPushConstant { value, name }
    }
}

impl PushConstant for TypedPushConstant {
    open spec fn spec_bytes(&self) -> Seq<u8> {
        value_bytes(self.value)
    }

    open spec fn spec_name(&self) -> Seq<char> {
        self.name@
    }

    fn size(&self) -> (size: usize) {
        self.value.kind().size()
    }

    fn name(&self) -> (name: &str) {
        self.name.as_str()
    }

    fn bytes(&self) -> (bytes: Vec<u8>) {
        convert_value_to_bytes(self.value)
    }
}

/// The views of a list of push constants, in order.
pub open spec fn push_constant_views(constants: Seq<TypedPushConstant>) -> Seq<PushConstantView> {
    Seq::new(constants.len(), |i: int| constants[i]@)
}

/// The push constants that a section declares: one for each declaration
/// whose tag names a kind, in the order of the declarations.
pub open spec fn loaded_push_constants(entries: Seq<ConfigEntry>) -> Seq<PushConstantView>
    decreases entries.len(),
{
    if entries.len() == 0 {
        Seq::empty()
    } else {
        let rest = loaded_push_constants(entries.drop_last());
        match entries.last().spec_scalar() {
            Some(value) => rest.push(PushConstantView { value, name: entries.last().name@ }),
            None => rest,
        }
    }
}

/// Loads the push constants of the section `"push constants"`. Each
/// declaration gives a name, a type tag and a value:
///
/// ```text
/// "push constants": {
///     "antialiasing": ["bool", false],
///     "samples per pixel": ["u32", 4]
/// }
/// ```
///
/// The tags are `f32`, `f64`, `u32`, `u64`, `i32`, `i64` and `bool`; a
/// declaration with any other tag is left out. The result keeps the order of
/// the declarations.
pub fn load_push_constants_from_json(data: &ConfigDocument) -> (constants: Vec<TypedPushConstant>)
    requires
        section_loadable(data.push_constants@),
    ensures
        push_constant_views(constants@) == loaded_push_constants(data.push_constants@),
{
    let entries = &data.push_constants;
    let mut constants: Vec<TypedPushConstant> = Vec::new();
    let mut i: usize = 0;
    while i < entries.len()
        invariant
            i <= entries.len(),
            section_loadable(entries@),
            push_constant_views(constants@) == loaded_push_constants(entries@.subrange(0, i as int)),
        decreases entries.len() - i,
    {
        let ghost before = constants@;
        proof {
            assert(entries@.subrange(0, i + 1).drop_last() =~= entries@.subrange(0, i as int));
            assert(entries@[i as int].spec_loadable());
        }
        match entries[i].scalar() {
            Some(value) => {
                let constant = TypedPushConstant::new(value, entries[i].name.clone());
                constants.push(constant);
                assert(push_constant_views(constants@) =~= push_constant_views(before).push(
                    constant@,
                ));
            },
            None => {},
        }
        i += 1;
    }
    proof {
        assert(entries@.subrange(0, i as int) =~= entries@);
    }
    constants
}

/// The sizes of a list of push constants, added up.
pub open spec fn total_push_constant_size(constants: Seq<PushConstantView>) -> nat
    decreases constants.len(),
{
    if constants.len() == 0 {
        0
    } else {
        total_push_constant_size(constants.drop_last()) + value_bytes(
            constants.last().value,
        ).len()
    }
}

/// A list of push constants takes four or eight bytes for each of them.
pub proof fn lemma_total_push_constant_size_bounds(constants: Seq<PushConstantView>)
    ensures
        4 * constants.len() <= total_push_constant_size(constants) <= 8 * constants.len(),
    decreases constants.len(),
{
    if constants.len() > 0 {
        lemma_total_push_constant_size_bounds(constants.drop_last());
        crate::utils::lemma_value_bytes_round_trip(constants.last().value);
    }
}

/// One write of push constant data: `bytes` go to the offset `offset` of the
/// push constant block.
#[derive(Debug, PartialEq, Eq)]
pub struct PushConstantWrite {
    pub offset: u32,
    pub bytes: Vec<u8>,
}

/// The writes that send a list of push constants: one for each constant, in
/// order, each at the offset where the one before it ends.
pub open spec fn push_constant_writes_wf(
    constants: Seq<PushConstantView>,
    writes: Seq<PushConstantWrite>,
) -> bool {
    &&& writes.len() == constants.len()
    &&& forall|i: int|
        0 <= i < writes.len() ==> {
            &&& (#[trigger] writes[i]).bytes@ == value_bytes(constants[i].value)
            &&& writes[i].offset == total_push_constant_size(constants.subrange(0, i))
        }
}

/// Number of bytes that a list of push constants takes: the end of the range
/// that the pipeline layout declares for them. `None` where it is more than
/// a `u32` can say.
pub fn push_constants_size(constants: &Vec<TypedPushConstant>) -> (size: Option<u32>)
    ensures
        total_push_constant_size(push_constant_views(constants@)) <= u32::MAX ==> size == Some(
            total_push_constant_size(push_constant_views(constants@)) as u32,
        ),
        total_push_constant_size(push_constant_views(constants@)) > u32::MAX ==> size is None,
{
    let ghost views = push_constant_views(constants@);
    let mut size: u32 = 0;
    let mut i: usize = 0;
    while i < constants.len()
        invariant
            i <= constants.len(),
            views == push_constant_views(constants@),
            size == total_push_constant_size(views.subrange(0, i as int)),
        decreases constants.len() - i,
    {
        proof {
            assert(views.subrange(0, i + 1).drop_last() =~= views.subrange(0, i as int));
            crate::utils::lemma_value_bytes_round_trip(constants@[i as int].value);
            lemma_push_constant_size_grows(views, i + 1);
        }
        match size.checked_add(constants[i].size() as u32) {
            Some(sum) => {
                size = sum;
            },
            None => {
                return None;
            },
        }
        i += 1;
    }
    proof {
        assert(views.subrange(0, i as int) =~= views);
    }
    Some(size)
}

/// The first push constants of a list take no more bytes than the whole
/// list.
pub proof fn lemma_push_constant_size_grows(constants: Seq<PushConstantView>, n: int)
    requires
        0 <= n <= constants.len(),
    ensures
        total_push_constant_size(constants.subrange(0, n)) <= total_push_constant_size(constants),
    decreases constants.len() - n,
{
    if n < constants.len() {
        lemma_push_constant_size_grows(constants, n + 1);
        assert(constants.subrange(0, n + 1).drop_last() =~= constants.subrange(0, n));
    } else {
        assert(constants.subrange(0, n) =~= constants);
    }
}

/// The writes that send a list of push constants with a draw call: one for
/// each constant, in the order of the list, each at the offset where the one
/// before it ends. `None` where the constants take more bytes than a `u32`
/// can say.
pub fn push_constant_writes(constants: &Vec<TypedPushConstant>) -> (writes: Option<
    Vec<PushConstantWrite>,
>)
    ensures
        total_push_constant_size(push_constant_views(constants@)) <= u32::MAX ==> writes is Some
            && push_constant_writes_wf(push_constant_views(constants@), writes->Some_0@),
        total_push_constant_size(push_constant_views(constants@)) > u32::MAX ==> writes is None,
{
    let ghost views = push_constant_views(constants@);
    let mut writes: Vec<PushConstantWrite> = Vec::new();
    let mut offset: u32 = 0;
    let mut i: usize = 0;
    while i < constants.len()
        invariant
            i <= constants.len(),
            views == push_constant_views(constants@),
            offset == total_push_constant_size(views.subrange(0, i as int)),
            writes@.len() == i,
            forall|j: int|
                0 <= j < i ==> {
                    &&& (#[trigger] writes@[j]).bytes@ == value_bytes(views[j].value)
                    &&& writes@[j].offset == total_push_constant_size(views.subrange(0, j))
                },
        decreases constants.len() - i,
    {
        proof {
            assert(views.subrange(0, i + 1).drop_last() =~= views.subrange(0, i as int));
            crate::utils::lemma_value_bytes_round_trip(constants@[i as int].value);
            lemma_push_constant_size_grows(views, i + 1);
        }
        let bytes = constants[i].bytes();
        let size = constants[i].size();
        writes.push(PushConstantWrite { offset, bytes });
        match offset.checked_add(size as u32) {
            Some(sum) => {
                offset = sum;
            },
            None => {
                return None;
            },
        }
        i += 1;
    }
    proof {
        assert(views.subrange(0, i as int) =~= views);
    }
    Some(writes)
}

} // verus!
