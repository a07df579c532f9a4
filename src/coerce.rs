use vstd::prelude::*;

use crate::error::MeshError;

verus! {

pub open spec fn fits_u32(v: int) -> bool {
    0 <= v <= u32::MAX
}

/// An integer type that a format may use for vertex indices.
pub trait IndexValue: Copy {
    /// The mathematical value of the index.
    spec fn index_value(&self) -> int;

    /// The index as `u32`, or `None` when it does not fit.
    fn to_u32_checked(self) -> (r: Option<u32>)
        ensures
            r == (if fits_u32(self.index_value()) {
                Some(self.index_value() as u32)
            } else {
                None::<u32>
            }),
    ;

    /// The index widened to `i128`, which holds every value of every index type.
    fn to_i128(self) -> (r: i128)
        ensures
            r as int == self.index_value(),
    ;
}

impl IndexValue for u16 {
    open spec fn index_value(&self) -> int {
        *self as int
    }

    fn to_u32_checked(self) -> (r: Option<u32>) {
        Some(u32::from(self))
    }

    fn to_i128(self) -> (r: i128) {
        self as i128
    }
}

impl IndexValue for i16 {
    open spec fn index_value(&self) -> int {
        *self as int
    }

    fn to_u32_checked(self) -> (r: Option<u32>) {
        match u32::try_from(self) {
            Ok(v) => Some(v),
            Err(_) => None,
        }
    }

    fn to_i128(self) -> (r: i128) {
        self as i128
    }
}

impl IndexValue for u32 {
    open spec fn index_value(&self) -> int {
        *self as int
    }

    fn to_u32_checked(self) -> (r: Option<u32>) {
        Some(self)
    }

    fn to_i128(self) -> (r: i128) {
        self as i128
    }
}

impl IndexValue for i32 {
    open spec fn index_value(&self) -> int {
        *self as int
    }

    fn to_u32_checked(self) -> (r: Option<u32>) {
        match u32::try_from(self) {
            Ok(v) => Some(v),
            Err(_) => None,
        }
    }

    fn to_i128(self) -> (r: i128) {
        self as i128
    }
}

impl IndexValue for usize {
    open spec fn index_value(&self) -> int {
        *self as int
    }

    fn to_u32_checked(self) -> (r: Option<u32>) {
        match u32::try_from(self) {
            Ok(v) => Some(v),
            Err(_) => None,
        }
    }

    fn to_i128(self) -> (r: i128) {
        self as i128
    }
}

/// The mathematical values of a list of indices.
pub open spec fn index_values<T: IndexValue>(s: Seq<T>) -> Seq<int> {
    s.map_values(|t: T| t.index_value())
}

/// The triangle that the first three of `values` make for face `face`, or
/// the error that the first unusable value (or a short list) gives.
pub open spec fn triangle_from(values: Seq<int>, face: usize) -> Result<[u32; 3], MeshError> {
    if values.len() < 3 {
        Err(MeshError::TooFewIndices { face, count: values.len() as usize })
    } else if !fits_u32(values[0]) {
        Err(MeshError::IndexOutOfRange { face, position: 0, value: values[0] as i128 })
    } else if !fits_u32(values[1]) {
        Err(MeshError::IndexOutOfRange { face, position: 1, value: values[1] as i128 })
    } else if !fits_u32(values[2]) {
        Err(MeshError::IndexOutOfRange { face, position: 2, value: values[2] as i128 })
    } else {
        Ok([values[0] as u32, values[1] as u32, values[2] as u32])
    }
}

fn index_at<T: IndexValue>(indices_list: &[T], i: usize, position: usize) -> (r: Result<
    u32,
    MeshError,
>)
    requires
        position < indices_list@.len(),
    ensures
        ({
            let v = indices_list@[position as int].index_value();
            if fits_u32(v) {
                r == Ok::<u32, MeshError>(v as u32)
            } else {
                r == Err::<u32, MeshError>(
                    MeshError::IndexOutOfRange { face: i, position, value: v as i128 },
                )
            }
        }),
{
    let x = indices_list[position];
    match x.to_u32_checked() {
        Some(v) => Ok(v),
        None => Err(MeshError::IndexOutOfRange { face: i, position, value: x.to_i128() }),
    }
}

/// Turns the index list of face `i` into a triangle: its first three entries,
/// each converted to `u32`. A list shorter than three, or an entry that does
/// not fit in `u32`, is an index-range error naming the face.
pub fn extract_indices<T: IndexValue>(indices_list: &[T], i: usize) -> (r: Result<
    [u32; 3],
    MeshError,
>)
    ensures
        r == triangle_from(index_values(indices_list@), i),
        indices_list@.len() < 3 ==> r == Err::<[u32; 3], MeshError>(
            MeshError::TooFewIndices { face: i, count: indices_list@.len() as usize },
        ),
{
    if indices_list.len() < 3 {
        return Err(MeshError::TooFewIndices { face: i, count: indices_list.len() });
    }
    let a = index_at(indices_list, i, 0)?;
    let b = index_at(indices_list, i, 1)?;
    let c = index_at(indices_list, i, 2)?;
    Ok([a, b, c])
}

} // verus!
