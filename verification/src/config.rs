//! The description of a shader's custom uniforms and push constants, as it is
//! read from a JSON document.
//!
//! The document has two optional sections, `"uniforms"` and
//! `"push constants"`. Each maps a declared name to a two-element array: a
//! type tag and a value. A value is held here by what the JSON reader answers
//! when asked for it as a string, a boolean or a number of some kind.

use vstd::prelude::*;
use vstd::string::*;
use crate::uniforms::UserUniformType;
use crate::utils::UniformValue;

verus! {

/// One JSON value, by what its accessors answer. A field is `None` where the
/// reader cannot give the value as that kind. The two floating-point fields
/// hold IEEE-754 bit patterns.
#[derive(Debug, PartialEq, Eq)]
pub struct ConfigValue {
    pub as_str: Option<String>,
    pub as_bool: Option<bool>,
    pub as_f32: Option<u32>,
    pub as_f64: Option<u64>,
    pub as_u32: Option<u32>,
    pub as_u64: Option<u64>,
    pub as_i32: Option<i32>,
    pub as_i64: Option<i64>,
}

/// One declaration of a section: the declared name and the members of the
/// array that stands for it (none, where it is no array).
#[derive(Debug, PartialEq, Eq)]
pub struct ConfigEntry {
    pub name: String,
    pub members: Vec<ConfigValue>,
}

/// A parsed document: the declarations of its two sections, in the order in
/// which they appear. A section that is missing, null or no object has no
/// declarations.
#[derive(Debug, PartialEq, Eq)]
pub struct ConfigDocument {
    pub uniforms: Vec<ConfigEntry>,
    pub push_constants: Vec<ConfigEntry>,
}

/// The kind that a type tag names, if it names one.
pub open spec fn tag_kind(tag: Seq<char>) -> Option<UserUniformType> {
    if tag == "f32"@ {
        Some(UserUniformType::Float32)
    } else if tag == "f64"@ {
        Some(UserUniformType::Float64)
    } else if tag == "u32"@ {
        Some(UserUniformType::UInt32)
    } else if tag == "u64"@ {
        Some(UserUniformType::UInt64)
    } else if tag == "i32"@ {
        Some(UserUniformType::Int32)
    } else if tag == "i64"@ {
        Some(UserUniformType::Int64)
    } else if tag == "bool"@ {
        Some(UserUniformType::Bool)
    } else {
        None
    }
}

impl ConfigValue {
    /// The value as a scalar of kind `kind`, where the reader can give it as
    /// that kind.
    pub open spec fn spec_scalar(&self, kind: UserUniformType) -> Option<UniformValue> {
        match kind {
            UserUniformType::Float32 => match self.as_f32 {
                Some(bits) => Some(UniformValue::Float32(bits)),
                None => None,
            },
            UserUniformType::Float64 => match self.as_f64 {
                Some(bits) => Some(UniformValue::Float64(bits)),
                None => None,
            },
            UserUniformType::UInt32 => match self.as_u32 {
                Some(x) => Some(UniformValue::UInt32(x)),
                None => None,
            },
            UserUniformType::UInt64 => match self.as_u64 {
                Some(x) => Some(UniformValue::UInt64(x)),
                None => None,
            },
            UserUniformType::Int32 => match self.as_i32 {
                Some(x) => Some(UniformValue::Int32(x)),
                None => None,
            },
            UserUniformType::Int64 => match self.as_i64 {
                Some(x) => Some(UniformValue::Int64(x)),
                None => None,
            },
            UserUniformType::Bool => match self.as_bool {
                Some(b) => Some(UniformValue::Bool(b)),
                None => None,
            },
        }
    }

    /// The value as a scalar of kind `kind`, where the reader can give it as
    /// that kind.
    pub fn scalar(&self, kind: UserUniformType) -> (value: Option<UniformValue>)
        ensures
            value == self.spec_scalar(kind),
    {
        match kind {
            UserUniformType::Float32 => match self.as_f32 {
                Some(bits) => Some(UniformValue::Float32(bits)),
                None => None,
            },
            UserUniformType::Float64 => match self.as_f64 {
                Some(bits) => Some(UniformValue::Float64(bits)),
                None => None,
            },
            UserUniformType::UInt32 => match self.as_u32 {
                Some(x) => Some(UniformValue::UInt32(x)),
                None => None,
            },
            UserUniformType::UInt64 => match self.as_u64 {
                Some(x) => Some(UniformValue::UInt64(x)),
                None => None,
            },
            UserUniformType::Int32 => match self.as_i32 {
                Some(x) => Some(UniformValue::Int32(x)),
                None => None,
            },
            UserUniformType::Int64 => match self.as_i64 {
                Some(x) => Some(UniformValue::Int64(x)),
                None => None,
            },
            UserUniformType::Bool => match self.as_bool {
                Some(b) => Some(UniformValue::Bool(b)),
                None => None,
            },
        }
    }
}

impl ConfigEntry {
    /// The type tag of the declaration: its first member, where that is a
    /// string.
    pub open spec fn spec_tag(&self) -> Option<Seq<char>> {
        if self.members@.len() >= 1 {
            match self.members@[0].as_str {
                Some(tag) => Some(tag@),
                None => None,
            }
        } else {
            None
        }
    }

    /// The declaration can be loaded: it has a type tag and a value, and
    /// where the tag names a kind, the value can be given as that kind.
    pub open spec fn spec_loadable(&self) -> bool {
        &&& self.members@.len() >= 2
        &&& self.spec_tag() is Some
        &&& match tag_kind(self.spec_tag().unwrap()) {
            Some(kind) => self.members@[1].spec_scalar(kind) is Some,
            None => true,
        }
    }

    /// The scalar that the declaration declares, of the kind that its tag
    /// names. A declaration whose tag names no kind declares nothing.
    pub open spec fn spec_scalar(&self) -> Option<UniformValue>
        recommends
            self.spec_loadable(),
    {
        match tag_kind(self.spec_tag().unwrap()) {
            Some(kind) => self.members@[1].spec_scalar(kind),
            None => None,
        }
    }

    /// Whether the declaration can be loaded.
    pub fn loadable(&self) -> (ok: bool)
        ensures
            ok == self.spec_loadable(),
    {
        if self.members.len() < 2 {
            return false;
        }
        match &self.members[0].as_str {
            Some(tag) => match kind_of_tag(tag) {
                Some(kind) => self.members[1].scalar(kind).is_some(),
                None => true,
            },
            None => false,
        }
    }

    /// The scalar that the declaration declares, or `None` where its tag
    /// names no kind.
    pub fn scalar(&self) -> (value: Option<UniformValue>)
        requires
            self.spec_loadable(),
        ensures
            value == self.spec_scalar(),
    {
        match &self.members[0].as_str {
            Some(tag) => match kind_of_tag(tag) {
                Some(kind) => self.members[1].scalar(kind),
                None => None,
            },
            None => None,
        }
    }
}

/// The kind that a type tag names: one of `f32`, `f64`, `u32`, `u64`, `i32`,
/// `i64` and `bool`. Any other tag names none.
pub fn kind_of_tag(tag: &String) -> (kind: Option<UserUniformType>)
    ensures
        kind == tag_kind(tag@),
{
    if *tag == String::from_str("f32") {
        Some(UserUniformType::Float32)
    } else if *tag == String::from_str("f64") {
        Some(UserUniformType::Float64)
    } else if *tag == String::from_str("u32") {
        Some(UserUniformType::UInt32)
    } else if *tag == String::from_str("u64") {
        Some(UserUniformType::UInt64)
    } else if *tag == String::from_str("i32") {
        Some(UserUniformType::Int32)
    } else if *tag == String::from_str("i64") {
        Some(UserUniformType::Int64)
    } else if *tag == String::from_str("bool") {
        Some(UserUniformType::Bool)
    } else {
        None
    }
}

/// Every declaration of a section can be loaded.
pub open spec fn section_loadable(entries: Seq<ConfigEntry>) -> bool {
    forall|i: int| 0 <= i < entries.len() ==> (#[trigger] entries[i]).spec_loadable()
}

/// Whether every declaration of a section can be loaded.
pub fn entries_loadable(entries: &Vec<ConfigEntry>) -> (ok: bool)
    ensures
        ok == section_loadable(entries@),
{
    let mut i: usize = 0;
    while i < entries.len()
        invariant
            i <= entries.len(),
            forall|j: int| 0 <= j < i ==> (#[trigger] entries@[j]).spec_loadable(),
        decreases entries.len() - i,
    {
        if !entries[i].loadable() {
            return false;
        }
        i += 1;
    }
    true
}

impl ConfigDocument {
    /// Every declaration of both sections can be loaded.
    pub open spec fn spec_loadable(&self) -> bool {
        section_loadable(self.uniforms@) && section_loadable(self.push_constants@)
    }

    /// Whether every declaration of both sections can be loaded.
    pub fn loadable(&self) -> (ok: bool)
        ensures
            ok == self.spec_loadable(),
    {
        entries_loadable(&self.uniforms) && entries_loadable(&self.push_constants)
    }
}

} // verus!
