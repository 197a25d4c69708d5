use vstd::prelude::*;

verus! {

/// The envelope of every answer: whether the operation succeeded, and its value.
pub struct SuccessWrapper<T> {
    pub success: bool,
    pub value: T,
}

impl<T> SuccessWrapper<T> {
    /// Wraps the value of a successful operation.
    pub fn success(value: T) -> (r: SuccessWrapper<T>)
        ensures
            r.success,
            r.value == value,
    {
        SuccessWrapper { success: true, value }
    }

    /// Wraps the value of a failed operation.
    pub fn failure(value: T) -> (r: SuccessWrapper<T>)
        ensures
            !r.success,
            r.value == value,
    {
        SuccessWrapper { success: false, value }
    }
}

} // verus!
