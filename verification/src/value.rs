//! Dynamically typed values, sizes and expression-bound properties.

use vstd::prelude::*;

verus! {

/// A length along one axis: absolute pixels, or a percentage of the parent's bound.
#[derive(Copy, Clone, Debug)]
pub enum Size<T> {
    Pixel(T),
    Percent(T),
}

/// The coefficients of an affine transform, as number patterns.
pub type Coefficients = [u64; 6];

/// The type a [`TypedValue`] carries.
#[derive(Copy, Clone, Debug, PartialEq, Eq, Structural)]
pub enum TypeTag {
    Bool,
    Index,
    Integer,
    Number,
    Size,
    Transform,
    Color,
}

/// A value whose type is only known at run time: what an expression yields
/// and what a scope binds to a name.
#[derive(Copy, Clone, Debug)]
pub enum TypedValue {
    Bool(bool),
    Index(usize),
    Integer(i64),
    /// A floating-point number, as its pattern.
    Number(u64),
    Size(Size<u64>),
    Transform(Coefficients),
    /// A colour as packed RGBA.
    Color(u32),
}

/// Why a frame could not be completed.
#[derive(Copy, Clone, Debug, PartialEq, Eq, Structural)]
pub enum EngineError {
    /// An expression yielded a value of another type than its property holds.
    TypeMismatch { expected: TypeTag, found: TypeTag },
}

impl TypedValue {
    pub open spec fn spec_tag(self) -> TypeTag {
        match self {
            TypedValue::Bool(_) => TypeTag::Bool,
            TypedValue::Index(_) => TypeTag::Index,
            TypedValue::Integer(_) => TypeTag::Integer,
            TypedValue::Number(_) => TypeTag::Number,
            TypedValue::Size(_) => TypeTag::Size,
            TypedValue::Transform(_) => TypeTag::Transform,
            TypedValue::Color(_) => TypeTag::Color,
        }
    }

    /// The type this value carries.
    #[verifier::when_used_as_spec(spec_tag)]
    pub fn tag(self) -> (t: TypeTag)
        ensures
            t == self.spec_tag(),
    {
        match self {
            TypedValue::Bool(_) => TypeTag::Bool,
            TypedValue::Index(_) => TypeTag::Index,
            TypedValue::Integer(_) => TypeTag::Integer,
            TypedValue::Number(_) => TypeTag::Number,
            TypedValue::Size(_) => TypeTag::Size,
            TypedValue::Transform(_) => TypeTag::Transform,
            TypedValue::Color(_) => TypeTag::Color,
        }
    }
}

/// A property of a node: its current value and, where the value is bound to an
/// expression, the id under which the expression is evaluated.
#[derive(Copy, Clone, Debug)]
pub struct Property<T> {
    pub value: T,
    pub vtable_id: Option<u64>,
}

impl<T: Copy> Property<T> {
    /// A property with a fixed value.
    pub fn literal(value: T) -> (p: Self)
        ensures
            p.value == value,
            p.vtable_id is None,
    {
        Property { value, vtable_id: None }
    }

    /// A property bound to the expression `vtable_id`, holding `initial` until
    /// the expression is first evaluated.
    pub fn expression(initial: T, vtable_id: u64) -> (p: Self)
        ensures
            p.value == initial,
            p.vtable_id == Some(vtable_id),
    {
        Property { value: initial, vtable_id: Some(vtable_id) }
    }

    pub fn get(&self) -> (v: &T)
        ensures
            *v == self.value,
    {
        &self.value
    }

    pub fn set(&mut self, value: T)
        ensures
            final(self).value == value,
            final(self).vtable_id == old(self).vtable_id,
    {
        self.value = value;
    }

    pub fn _get_vtable_id(&self) -> (id: Option<u64>)
        ensures
            id == self.vtable_id,
    {
        self.vtable_id
    }
}

/// What a size property holds after an evaluation that yielded `evaluated`.
pub open spec fn refreshed_size(current: Size<u64>, evaluated: Option<TypedValue>) -> Result<
    Size<u64>,
    EngineError,
> {
    match evaluated {
        None => Ok(current),
        Some(TypedValue::Size(s)) => Ok(s),
        Some(other) => Err(
            EngineError::TypeMismatch { expected: TypeTag::Size, found: other.spec_tag() },
        ),
    }
}

/// What a transform property holds after an evaluation that yielded `evaluated`.
pub open spec fn refreshed_transform(
    current: Coefficients,
    evaluated: Option<TypedValue>,
) -> Result<Coefficients, EngineError> {
    match evaluated {
        None => Ok(current),
        Some(TypedValue::Transform(t)) => Ok(t),
        Some(other) => Err(
            EngineError::TypeMismatch { expected: TypeTag::Transform, found: other.spec_tag() },
        ),
    }
}

/// What a colour property holds after an evaluation that yielded `evaluated`.
pub open spec fn refreshed_color(current: u32, evaluated: Option<TypedValue>) -> Result<
    u32,
    EngineError,
> {
    match evaluated {
        None => Ok(current),
        Some(TypedValue::Color(c)) => Ok(c),
        Some(other) => Err(
            EngineError::TypeMismatch { expected: TypeTag::Color, found: other.spec_tag() },
        ),
    }
}

/// Checks the type of a freshly evaluated size; no evaluation keeps `current`.
pub fn refresh_size(current: Size<u64>, evaluated: Option<TypedValue>) -> (r: Result<
    Size<u64>,
    EngineError,
>)
    ensures
        r == refreshed_size(current, evaluated),
{
    match evaluated {
        None => Ok(current),
        Some(TypedValue::Size(s)) => Ok(s),
        Some(other) => Err(EngineError::TypeMismatch { expected: TypeTag::Size, found: other.tag() }),
    }
}

/// Checks the type of a freshly evaluated transform; no evaluation keeps `current`.
pub fn refresh_transform(current: Coefficients, evaluated: Option<TypedValue>) -> (r: Result<
    Coefficients,
    EngineError,
>)
    ensures
        r == refreshed_transform(current, evaluated),
{
    match evaluated {
        None => Ok(current),
        Some(TypedValue::Transform(t)) => Ok(t),
        Some(other) => Err(
            EngineError::TypeMismatch { expected: TypeTag::Transform, found: other.tag() },
        ),
    }
}

/// Checks the type of a freshly evaluated colour; no evaluation keeps `current`.
pub fn refresh_color(current: u32, evaluated: Option<TypedValue>) -> (r: Result<u32, EngineError>)
    ensures
        r == refreshed_color(current, evaluated),
{
    match evaluated {
        None => Ok(current),
        Some(TypedValue::Color(c)) => Ok(c),
        Some(other) => Err(EngineError::TypeMismatch { expected: TypeTag::Color, found: other.tag() }),
    }
}

} // verus!
