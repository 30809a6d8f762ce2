//! The result words returned by the PSP operating system and the types that can be
//! the successful value of one.
use core::convert::Infallible;
use core::marker::PhantomData;
use core::ops::ControlFlow;
use vstd::prelude::*;

use super::{SceError, SceUid, SCE_ERROR_MIN, SCE_OK_MAX};

verus! {

broadcast use super::group_sce_words;

/// Largest 64-bit word that the system uses for a successful result.
pub const SCE_OK64_MAX: u64 = 0xFFFF_FFFF_7FFF_FFFF;

/// Smallest 64-bit word that the system uses for an error code.
pub const SCE_ERROR64_MIN: u64 = 0xFFFF_FFFF_8000_0001;

/// The 64-bit word that is neither a success nor an error code.
pub const SCE_UNUSED64: u64 = 0xFFFF_FFFF_8000_0000;

/// The high half that the 64-bit result words of errors carry.
pub const SCE_ERROR64_HIGH: u64 = 0xFFFF_FFFF_0000_0000;

/// Types that can be the successful value of a [`SceResult`] or [`SceResult64`].
pub trait SceResultOk: Sized {
    /// The value that a word of the success range stands for, if any.
    spec fn ok_value_spec(ok_value: u32) -> Option<Self>;

    /// The value that a 64-bit word of the success range stands for, if any.
    spec fn ok_value64_spec(ok_value: u64) -> Option<Self>;

    /// Turn a word of the success range (`0..=0x7FFFFFFF`) into the value it stands for.
    fn handle_ok_value(ok_value: u32) -> (r: Option<Self>)
        requires
            ok_value <= SCE_OK_MAX,
        ensures
            r == Self::ok_value_spec(ok_value),
    ;

    /// Turn a 64-bit word of the success range (`0..=0xFFFFFFFF_7FFFFFFF`) into the value it
    /// stands for.
    fn handle_ok_value64(ok_value: u64) -> (r: Option<Self>)
        requires
            ok_value <= SCE_OK64_MAX,
        ensures
            r == Self::ok_value64_spec(ok_value),
    ;
}

/// Types that can be turned into a [`SceResult`] success word.
pub trait SceIntoOkValue: Sized {
    /// The word that stands for the value.
    spec fn into_ok_spec(self) -> u32;

    /// The word that stands for the value.
    fn into_ok_value(self) -> (r: u32)
        ensures
            r == self.into_ok_spec(),
    ;
}

/// Types that can be turned into a [`SceResult64`] success word.
pub trait SceInto64OkValue: Sized {
    /// The 64-bit word that stands for the value.
    spec fn into_ok64_spec(self) -> u64;

    /// The 64-bit word that stands for the value.
    fn into_ok_value64(self) -> (r: u64)
        ensures
            r == self.into_ok64_spec(),
    ;
}

/// Types whose success words are read back as the value they were made from.
pub trait SceOkRoundTrip: SceResultOk + SceIntoOkValue {
    /// Reading back the success word of a value gives the value, whenever that word lies in
    /// the success range.
    proof fn lemma_ok_round_trip(v: Self)
        requires
            v.into_ok_spec() <= SCE_OK_MAX,
        ensures
            Self::ok_value_spec(v.into_ok_spec()) == Some(v),
    ;
}

impl<T: SceIntoOkValue> SceInto64OkValue for T {
    open spec fn into_ok64_spec(self) -> u64 {
        self.into_ok_spec() as u64
    }

    fn into_ok_value64(self) -> (r: u64) {
        self.into_ok_value() as u64
    }
}

/// A type that represents the return value of many PSP OS APIs.
///
/// If its value is in the range of [`SceError`] (`0x80000001..=0xFFFFFFFF`), then it is an error
/// result, and a success value otherwise.
#[derive(Debug, PartialEq, Eq, PartialOrd, Ord, Hash)]
pub struct SceResult<T>(u32, PhantomData<T>);

impl<T> Clone for SceResult<T> {
    /// Cloning is cheap; the type is not `Copy` so that error words are not dropped silently.
    fn clone(&self) -> (r: Self)
        ensures
            r == *self,
    {
        SceResult(self.0, PhantomData)
    }
}

impl<T> SceResult<T> {
    /// The result word.
    pub closed spec fn raw(self) -> u32 {
        self.0
    }

    /// The result with the given word.
    pub closed spec fn spec_new(raw: u32) -> Self {
        SceResult(raw, PhantomData)
    }

    /// The word of a result built from a word is that word.
    pub broadcast proof fn lemma_raw_spec_new(raw: u32)
        ensures
            #[trigger] Self::spec_new(raw).raw() == raw,
    {
    }

    /// Whether the word is a success value: every word outside the error range is one.
    pub open spec fn spec_is_ok(self) -> bool {
        self.raw() < SCE_ERROR_MIN
    }

    /// Whether the word is in the error range.
    pub open spec fn spec_is_err(self) -> bool {
        self.raw() >= SCE_ERROR_MIN
    }

    /// Create a new SceResult.
    pub fn new(raw: u32) -> (r: Self)
        ensures
            r == Self::spec_new(raw),
            r.raw() == raw,
    {
        SceResult(raw, PhantomData)
    }

    /// Returns `true` if the result is a Ok value.
    pub fn is_ok(&self) -> (r: bool)
        ensures
            r == self.spec_is_ok(),
    {
        self.0 < SCE_ERROR_MIN
    }

    /// Returns `true` if the result is a error value.
    pub fn is_err(&self) -> (r: bool)
        ensures
            r == self.spec_is_err(),
    {
        self.0 >= SCE_ERROR_MIN
    }

    /// Get the internal value of the result.
    pub fn as_inner(&self) -> (r: u32)
        ensures
            r == self.raw(),
    {
        self.0
    }
}

impl SceResult<()> {
    /// The result word that means "everything ok".
    pub fn success() -> (r: Self)
        ensures
            r == Self::spec_new(0),
            r.raw() == 0,
    {
        SceResult(0, PhantomData)
    }
}

impl<T: SceResultOk> SceResult<T> {
    /// What the result word means: the value of a success word, the error of an error word,
    /// and the "invalid value" error for success words that stand for no value of `T`, among
    /// them `0x80000000`, which lies outside the value words `0..=0x7FFFFFFF`.
    pub open spec fn spec_into_result(self) -> Result<T, SceError> {
        if self.raw() <= SCE_OK_MAX {
            match T::ok_value_spec(self.raw()) {
                Some(t) => Ok(t),
                None => Err(SceError::spec_new(SceError::INVALID_VALUE)),
            }
        } else if self.raw() >= SCE_ERROR_MIN {
            Err(SceError::spec_new(self.raw()))
        } else {
            Err(SceError::spec_new(SceError::INVALID_VALUE))
        }
    }

    /// Turn the SceResult into a [`Result`] type.
    pub fn into_result(self) -> (r: Result<T, SceError>)
        ensures
            r == self.spec_into_result(),
    {
        if self.0 <= SCE_OK_MAX {
            match T::handle_ok_value(self.0) {
                Some(t) => Ok(t),
                None => Err(SceError::invalid_value()),
            }
        } else if self.0 >= SCE_ERROR_MIN {
            Err(SceError::from_raw_unchecked(self.0))
        } else {
            Err(SceError::invalid_value())
        }
    }

    /// Converts from `SceResult` to [`Option<T>`], discarding the error, if any.
    pub fn ok(self) -> (r: Option<T>)
        ensures
            r == (if self.raw() <= SCE_OK_MAX {
                T::ok_value_spec(self.raw())
            } else {
                None
            }),
            r == match self.spec_into_result() {
                Ok(t) => Some(t),
                Err(_) => None,
            },
    {
        if self.0 <= SCE_OK_MAX {
            T::handle_ok_value(self.0)
        } else {
            None
        }
    }

    /// Converts from `SceResult<T>` to [`Option<SceError>`], discarding the success value, if
    /// any.
    ///
    /// A word of the success range gives `None`, even where it stands for no value of `T`.
    pub fn err(self) -> (r: Option<SceError>)
        ensures
            r == (if self.raw() <= SCE_OK_MAX {
                None
            } else if self.raw() >= SCE_ERROR_MIN {
                Some(SceError::spec_new(self.raw()))
            } else {
                Some(SceError::spec_new(SceError::INVALID_VALUE))
            }),
    {
        if self.0 <= SCE_OK_MAX {
            None
        } else if self.0 >= SCE_ERROR_MIN {
            Some(SceError::from_raw_unchecked(self.0))
        } else {
            Some(SceError::invalid_value())
        }
    }

    /// Maps a `SceResult<T>` to `Result<U, SceError>` by applying a function to a contained
    /// [`Ok`] value, leaving an [`Err`] value untouched.
    pub fn map<U, F: FnOnce(T) -> U>(self, op: F) -> (r: Result<U, SceError>)
        requires
            self.spec_into_result() matches Ok(t) ==> op.requires((t,)),
        ensures
            match self.spec_into_result() {
                Ok(t) => r matches Ok(u) && op.ensures((t,), u),
                Err(e) => r == Err::<U, SceError>(e),
            },
    {
        match self.into_result() {
            Ok(t) => Ok(op(t)),
            Err(e) => Err(e),
        }
    }

    /// Returns the provided default (if `Err`), or applies a function to the contained value
    /// (if `Ok`).
    pub fn map_or<U, F: FnOnce(T) -> U>(self, default: U, f: F) -> (r: U)
        requires
            self.spec_into_result() matches Ok(t) ==> f.requires((t,)),
        ensures
            match self.spec_into_result() {
                Ok(t) => f.ensures((t,), r),
                Err(_) => r == default,
            },
    {
        match self.into_result() {
            Ok(t) => f(t),
            Err(_) => default,
        }
    }

    /// Maps a `SceResult<T>` to `U` by applying fallback function `default` to a contained
    /// `Err` value, or function `f` to a contained `Ok` value.
    pub fn map_or_else<U, D: FnOnce(SceError) -> U, F: FnOnce(T) -> U>(self, default: D, f: F) -> (r:
        U)
        requires
            self.spec_into_result() matches Ok(t) ==> f.requires((t,)),
            self.spec_into_result() matches Err(e) ==> default.requires((e,)),
        ensures
            match self.spec_into_result() {
                Ok(t) => f.ensures((t,), r),
                Err(e) => default.ensures((e,), r),
            },
    {
        match self.into_result() {
            Ok(t) => f(t),
            Err(e) => default(e),
        }
    }

    /// Maps a `SceResult<T>` to a `U` by applying function `f` to the contained value if the
    /// result is `Ok`, otherwise returns the default value for the type `U`.
    pub fn map_or_default<U: Default, F: FnOnce(T) -> U>(self, f: F) -> (r: U)
        requires
            self.spec_into_result() matches Ok(t) ==> f.requires((t,)),
        ensures
            match self.spec_into_result() {
                Ok(t) => f.ensures((t,), r),
                Err(_) => call_ensures(U::default, (), r),
            },
    {
        match self.into_result() {
            Ok(t) => f(t),
            Err(_) => U::default(),
        }
    }

    /// Maps a `SceResult<T>` to `Result<T, F>` by applying a function to a contained `Err`
    /// value, leaving an `Ok` value untouched.
    pub fn map_err<F, O: FnOnce(SceError) -> F>(self, op: O) -> (r: Result<T, F>)
        requires
            self.spec_into_result() matches Err(e) ==> op.requires((e,)),
        ensures
            match self.spec_into_result() {
                Ok(t) => r == Ok::<T, F>(t),
                Err(e) => r matches Err(f) && op.ensures((e,), f),
            },
    {
        match self.into_result() {
            Ok(t) => Ok(t),
            Err(e) => Err(op(e)),
        }
    }

    /// Calls a function with a reference to the contained value if `Ok` value.
    ///
    /// Returns the result it was called on.
    pub fn inspect<F: FnOnce(&T)>(self, f: F) -> (r: Self)
        requires
            self.spec_into_result() matches Ok(t) ==> f.requires((&t,)),
        ensures
            r == self,
            self.spec_into_result() matches Ok(t) ==> f.ensures((&t,), ()),
    {
        if self.0 <= SCE_OK_MAX {
            let res = T::handle_ok_value(self.0);
            if let Some(inner) = res {
                f(&inner);
            }
        }
        self
    }

    /// Calls a function with the contained error if the word is in the error range.
    ///
    /// Returns the result it was called on.
    pub fn inspect_err<F: FnOnce(SceError)>(self, f: F) -> (r: Self)
        requires
            self.spec_is_err() ==> f.requires((SceError::spec_new(self.raw()),)),
        ensures
            r == self,
            self.spec_is_err() ==> f.ensures((SceError::spec_new(self.raw()),), ()),
    {
        if self.is_err() {
            f(SceError::from_raw_unchecked(self.0));
        }
        self
    }
}

impl<T: SceResultOk + SceIntoOkValue> SceResult<T> {
    /// What the `?` operator does with the result: continue with the value, or break out with
    /// the error word.
    pub open spec fn spec_branch(self) -> ControlFlow<SceResult<Infallible>, T> {
        match self.spec_into_result() {
            Ok(v) => ControlFlow::Continue(v),
            Err(e) => ControlFlow::Break(SceResult::<Infallible>::spec_new(e.raw())),
        }
    }

    /// The successful result that holds `output`.
    pub fn from_output(output: T) -> (r: Self)
        ensures
            r == Self::spec_new(output.into_ok_spec()),
    {
        SceResult(output.into_ok_value(), PhantomData)
    }

    /// The result that carries on an error taken out of another result.
    pub fn from_residual(residual: SceResult<Infallible>) -> (r: Self)
        ensures
            r == Self::spec_new(residual.raw()),
    {
        SceResult(residual.0, PhantomData)
    }

    /// Splits the result into the value to continue with or the error to return early.
    pub fn branch(self) -> (r: ControlFlow<SceResult<Infallible>, T>)
        ensures
            r == self.spec_branch(),
    {
        match self.into_result() {
            Ok(v) => ControlFlow::Continue(v),
            Err(err) => ControlFlow::Break(SceResult::<Infallible>::new(err.to_inner())),
        }
    }
}

/// A type that represents the return value of some PSP OS APIs.
///
/// If its value is in the range of [`SceError`] (`0xFFFFFFFF_80000001..=0xFFFFFFFF_FFFFFFFF`),
/// then it is an error result whose code is the lower 32 bits, and a success value otherwise.
#[derive(Debug, PartialEq, Eq, PartialOrd, Ord, Hash)]
pub struct SceResult64<T>(u64, PhantomData<T>);

impl<T> Clone for SceResult64<T> {
    /// Cloning is cheap; the type is not `Copy` so that error words are not dropped silently.
    fn clone(&self) -> (r: Self)
        ensures
            r == *self,
    {
        SceResult64(self.0, PhantomData)
    }
}

/// The error code that a 64-bit error word carries in its lower 32 bits.
pub open spec fn error_of_word64(raw: u64) -> SceError {
    SceError::spec_new((raw - SCE_ERROR64_HIGH) as u32)
}

impl<T> SceResult64<T> {
    /// The result word.
    pub closed spec fn raw(self) -> u64 {
        self.0
    }

    /// The result with the given word.
    pub closed spec fn spec_new(raw: u64) -> Self {
        SceResult64(raw, PhantomData)
    }

    /// The word of a result built from a word is that word.
    pub broadcast proof fn lemma_raw_spec_new(raw: u64)
        ensures
            #[trigger] Self::spec_new(raw).raw() == raw,
    {
    }

    /// Whether the word is a success value: every word outside the error range is one.
    pub open spec fn spec_is_ok(self) -> bool {
        self.raw() < SCE_ERROR64_MIN
    }

    /// Whether the word is in the error range.
    pub open spec fn spec_is_err(self) -> bool {
        self.raw() >= SCE_ERROR64_MIN
    }

    /// Create a new SceResult64.
    pub fn new(raw: u64) -> (r: Self)
        ensures
            r == Self::spec_new(raw),
            r.raw() == raw,
    {
        SceResult64(raw, PhantomData)
    }

    /// Returns `true` if the result is a Ok value.
    pub fn is_ok(&self) -> (r: bool)
        ensures
            r == self.spec_is_ok(),
    {
        self.0 < SCE_ERROR64_MIN
    }

    /// Returns `true` if the result is a error value.
    pub fn is_err(&self) -> (r: bool)
        ensures
            r == self.spec_is_err(),
    {
        self.0 >= SCE_ERROR64_MIN
    }

    /// Get the internal value of the result.
    pub fn as_inner(&self) -> (r: u64)
        ensures
            r == self.raw(),
    {
        self.0
    }
}

impl<T: SceResultOk> SceResult64<T> {
    /// What the result word means: the value of a success word, the error in the lower half
    /// of an error word, and the "invalid value" error for success words that stand for no
    /// value of `T`, among them `0xFFFFFFFF_80000000`, which lies outside the value words
    /// `0..=0xFFFFFFFF_7FFFFFFF`.
    pub open spec fn spec_into_result(self) -> Result<T, SceError> {
        if self.raw() <= SCE_OK64_MAX {
            match T::ok_value64_spec(self.raw()) {
                Some(t) => Ok(t),
                None => Err(SceError::spec_new(SceError::INVALID_VALUE)),
            }
        } else if self.raw() >= SCE_ERROR64_MIN {
            Err(error_of_word64(self.raw()))
        } else {
            Err(SceError::spec_new(SceError::INVALID_VALUE))
        }
    }

    /// Turn the SceResult64 into a [`Result`] type.
    pub fn into_result(self) -> (r: Result<T, SceError>)
        ensures
            r == self.spec_into_result(),
    {
        if self.0 <= SCE_OK64_MAX {
            match T::handle_ok_value64(self.0) {
                Some(t) => Ok(t),
                None => Err(SceError::invalid_value()),
            }
        } else if self.0 >= SCE_ERROR64_MIN {
            // Only the lower bits carry the error code.
            let err = (self.0 - SCE_ERROR64_HIGH) as u32;
            Err(SceError::from_raw_unchecked(err))
        } else {
            Err(SceError::invalid_value())
        }
    }

    /// Converts from `SceResult64` to [`Option<T>`], discarding the error, if any.
    pub fn ok(self) -> (r: Option<T>)
        ensures
            r == match self.spec_into_result() {
                Ok(t) => Some(t),
                Err(_) => None,
            },
    {
        match self.into_result() {
            Ok(t) => Some(t),
            Err(_) => None,
        }
    }

    /// Converts from `SceResult64<T>` to [`Option<SceError>`], discarding the success value, if
    /// any.
    pub fn err(self) -> (r: Option<SceError>)
        ensures
            r == match self.spec_into_result() {
                Ok(_) => None,
                Err(e) => Some(e),
            },
    {
        match self.into_result() {
            Ok(_) => None,
            Err(e) => Some(e),
        }
    }

    /// Maps a `SceResult64<T>` to `Result<U, SceError>` by applying a function to a contained
    /// [`Ok`] value, leaving an [`Err`] value untouched.
    pub fn map<U, F: FnOnce(T) -> U>(self, op: F) -> (r: Result<U, SceError>)
        requires
            self.spec_into_result() matches Ok(t) ==> op.requires((t,)),
        ensures
            match self.spec_into_result() {
                Ok(t) => r matches Ok(u) && op.ensures((t,), u),
                Err(e) => r == Err::<U, SceError>(e),
            },
    {
        match self.into_result() {
            Ok(t) => Ok(op(t)),
            Err(e) => Err(e),
        }
    }

    /// Returns the provided default (if `Err`), or applies a function to the contained value
    /// (if `Ok`).
    pub fn map_or<U, F: FnOnce(T) -> U>(self, default: U, f: F) -> (r: U)
        requires
            self.spec_into_result() matches Ok(t) ==> f.requires((t,)),
        ensures
            match self.spec_into_result() {
                Ok(t) => f.ensures((t,), r),
                Err(_) => r == default,
            },
    {
        match self.into_result() {
            Ok(t) => f(t),
            Err(_) => default,
        }
    }

    /// Maps a `SceResult64<T>` to `U` by applying fallback function `default` to a contained
    /// `Err` value, or function `f` to a contained `Ok` value.
    pub fn map_or_else<U, D: FnOnce(SceError) -> U, F: FnOnce(T) -> U>(self, default: D, f: F) -> (r:
        U)
        requires
            self.spec_into_result() matches Ok(t) ==> f.requires((t,)),
            self.spec_into_result() matches Err(e) ==> default.requires((e,)),
        ensures
            match self.spec_into_result() {
                Ok(t) => f.ensures((t,), r),
                Err(e) => default.ensures((e,), r),
            },
    {
        match self.into_result() {
            Ok(t) => f(t),
            Err(e) => default(e),
        }
    }

    /// Maps a `SceResult64<T>` to a `U` by applying function `f` to the contained value if the
    /// result is `Ok`, otherwise returns the default value for the type `U`.
    pub fn map_or_default<U: Default, F: FnOnce(T) -> U>(self, f: F) -> (r: U)
        requires
            self.spec_into_result() matches Ok(t) ==> f.requires((t,)),
        ensures
            match self.spec_into_result() {
                Ok(t) => f.ensures((t,), r),
                Err(_) => call_ensures(U::default, (), r),
            },
    {
        match self.into_result() {
            Ok(t) => f(t),
            Err(_) => U::default(),
        }
    }

    /// Maps a `SceResult64<T>` to `Result<T, F>` by applying a function to a contained `Err`
    /// value, leaving an `Ok` value untouched.
    pub fn map_err<F, O: FnOnce(SceError) -> F>(self, op: O) -> (r: Result<T, F>)
        requires
            self.spec_into_result() matches Err(e) ==> op.requires((e,)),
        ensures
            match self.spec_into_result() {
                Ok(t) => r == Ok::<T, F>(t),
                Err(e) => r matches Err(f) && op.ensures((e,), f),
            },
    {
        match self.into_result() {
            Ok(t) => Ok(t),
            Err(e) => Err(op(e)),
        }
    }

    /// Calls a function with a reference to the contained value if `Ok` value.
    ///
    /// Returns the result it was called on.
    pub fn inspect<F: FnOnce(&T)>(self, f: F) -> (r: Self)
        requires
            self.spec_into_result() matches Ok(t) ==> f.requires((&t,)),
        ensures
            r == self,
            self.spec_into_result() matches Ok(t) ==> f.ensures((&t,), ()),
    {
        if self.0 <= SCE_OK64_MAX {
            let res = T::handle_ok_value64(self.0);
            if let Some(inner) = res {
                f(&inner);
            }
        }
        self
    }

    /// Calls a function with the error in the lower half of the word if the word is in the
    /// error range.
    ///
    /// Returns the result it was called on.
    pub fn inspect_err<F: FnOnce(SceError)>(self, f: F) -> (r: Self)
        requires
            self.spec_is_err() ==> f.requires((error_of_word64(self.raw()),)),
        ensures
            r == self,
            self.spec_is_err() ==> f.ensures((error_of_word64(self.raw()),), ()),
    {
        if self.is_err() {
            // Only the lower bits carry the error code.
            let err = (self.0 - SCE_ERROR64_HIGH) as u32;
            f(SceError::from_raw_unchecked(err));
        }
        self
    }
}

impl<T: SceResultOk + SceInto64OkValue> SceResult64<T> {
    /// What the `?` operator does with the result: continue with the value, or break out with
    /// the error word, whose upper half is set as in every 64-bit error word.
    pub open spec fn spec_branch(self) -> ControlFlow<SceResult64<Infallible>, T> {
        match self.spec_into_result() {
            Ok(v) => ControlFlow::Continue(v),
            Err(e) => ControlFlow::Break(
                SceResult64::<Infallible>::spec_new((SCE_ERROR64_HIGH + e.raw()) as u64),
            ),
        }
    }

    /// The successful result that holds `output`.
    pub fn from_output(output: T) -> (r: Self)
        ensures
            r == Self::spec_new(output.into_ok64_spec()),
    {
        SceResult64(output.into_ok_value64(), PhantomData)
    }

    /// The result that carries on an error taken out of another result.
    pub fn from_residual(residual: SceResult64<Infallible>) -> (r: Self)
        ensures
            r == Self::spec_new(residual.raw()),
    {
        SceResult64(residual.0, PhantomData)
    }

    /// Splits the result into the value to continue with or the error to return early.
    pub fn branch(self) -> (r: ControlFlow<SceResult64<Infallible>, T>)
        ensures
            r == self.spec_branch(),
    {
        match self.into_result() {
            Ok(v) => ControlFlow::Continue(v),
            Err(err) => ControlFlow::Break(
                SceResult64::<Infallible>::new(SCE_ERROR64_HIGH + err.to_inner() as u64),
            ),
        }
    }
}

// ---------------------------------------------------------------------------------------------
// Success values of the primitive types.
// ---------------------------------------------------------------------------------------------
impl SceResultOk for i8 {
    open spec fn ok_value_spec(ok_value: u32) -> Option<i8> {
        if ok_value <= 0x7F {
            Some(ok_value as i8)
        } else {
            None
        }
    }

    open spec fn ok_value64_spec(ok_value: u64) -> Option<i8> {
        if ok_value <= 0x7F {
            Some(ok_value as i8)
        } else {
            None
        }
    }

    fn handle_ok_value(ok_value: u32) -> (r: Option<i8>) {
        if ok_value <= 0x7F {
            Some(ok_value as i8)
        } else {
            None
        }
    }

    fn handle_ok_value64(ok_value: u64) -> (r: Option<i8>) {
        if ok_value <= 0x7F {
            Some(ok_value as i8)
        } else {
            None
        }
    }
}

impl SceIntoOkValue for i8 {
    open spec fn into_ok_spec(self) -> u32 {
        self as u32
    }

    fn into_ok_value(self) -> (r: u32) {
        self as u32
    }
}

impl SceOkRoundTrip for i8 {
    proof fn lemma_ok_round_trip(v: i8) {
        assert(v < 0 ==> (v as u32) > 0x7FFF_FFFFu32) by (bit_vector);
    }
}

impl SceResultOk for u8 {
    open spec fn ok_value_spec(ok_value: u32) -> Option<u8> {
        if ok_value <= 0xFF {
            Some(ok_value as u8)
        } else {
            None
        }
    }

    open spec fn ok_value64_spec(ok_value: u64) -> Option<u8> {
        if ok_value <= 0xFF {
            Some(ok_value as u8)
        } else {
            None
        }
    }

    fn handle_ok_value(ok_value: u32) -> (r: Option<u8>) {
        if ok_value <= 0xFF {
            Some(ok_value as u8)
        } else {
            None
        }
    }

    fn handle_ok_value64(ok_value: u64) -> (r: Option<u8>) {
        if ok_value <= 0xFF {
            Some(ok_value as u8)
        } else {
            None
        }
    }
}

impl SceIntoOkValue for u8 {
    open spec fn into_ok_spec(self) -> u32 {
        self as u32
    }

    fn into_ok_value(self) -> (r: u32) {
        self as u32
    }
}

impl SceOkRoundTrip for u8 {
    proof fn lemma_ok_round_trip(v: u8) {
    }
}

impl SceResultOk for i16 {
    open spec fn ok_value_spec(ok_value: u32) -> Option<i16> {
        if ok_value <= 0x7FFF {
            Some(ok_value as i16)
        } else {
            None
        }
    }

    open spec fn ok_value64_spec(ok_value: u64) -> Option<i16> {
        if ok_value <= 0x7FFF {
            Some(ok_value as i16)
        } else {
            None
        }
    }

    fn handle_ok_value(ok_value: u32) -> (r: Option<i16>) {
        if ok_value <= 0x7FFF {
            Some(ok_value as i16)
        } else {
            None
        }
    }

    fn handle_ok_value64(ok_value: u64) -> (r: Option<i16>) {
        if ok_value <= 0x7FFF {
            Some(ok_value as i16)
        } else {
            None
        }
    }
}

impl SceIntoOkValue for i16 {
    open spec fn into_ok_spec(self) -> u32 {
        self as u32
    }

    fn into_ok_value(self) -> (r: u32) {
        self as u32
    }
}

impl SceOkRoundTrip for i16 {
    proof fn lemma_ok_round_trip(v: i16) {
        assert(v < 0 ==> (v as u32) > 0x7FFF_FFFFu32) by (bit_vector);
    }
}

impl SceResultOk for u16 {
    open spec fn ok_value_spec(ok_value: u32) -> Option<u16> {
        if ok_value <= 0xFFFF {
            Some(ok_value as u16)
        } else {
            None
        }
    }

    open spec fn ok_value64_spec(ok_value: u64) -> Option<u16> {
        if ok_value <= 0xFFFF {
            Some(ok_value as u16)
        } else {
            None
        }
    }

    fn handle_ok_value(ok_value: u32) -> (r: Option<u16>) {
        if ok_value <= 0xFFFF {
            Some(ok_value as u16)
        } else {
            None
        }
    }

    fn handle_ok_value64(ok_value: u64) -> (r: Option<u16>) {
        if ok_value <= 0xFFFF {
            Some(ok_value as u16)
        } else {
            None
        }
    }
}

impl SceIntoOkValue for u16 {
    open spec fn into_ok_spec(self) -> u32 {
        self as u32
    }

    fn into_ok_value(self) -> (r: u32) {
        self as u32
    }
}

impl SceOkRoundTrip for u16 {
    proof fn lemma_ok_round_trip(v: u16) {
    }
}

impl SceResultOk for bool {
    open spec fn ok_value_spec(ok_value: u32) -> Option<bool> {
        if ok_value == 0 {
            Some(false)
        } else if ok_value == 1 {
            Some(true)
        } else {
            None
        }
    }

    open spec fn ok_value64_spec(ok_value: u64) -> Option<bool> {
        if ok_value == 0 {
            Some(false)
        } else if ok_value == 1 {
            Some(true)
        } else {
            None
        }
    }

    fn handle_ok_value(ok_value: u32) -> (r: Option<bool>) {
        if ok_value == 0 {
            Some(false)
        } else if ok_value == 1 {
            Some(true)
        } else {
            None
        }
    }

    fn handle_ok_value64(ok_value: u64) -> (r: Option<bool>) {
        if ok_value == 0 {
            Some(false)
        } else if ok_value == 1 {
            Some(true)
        } else {
            None
        }
    }
}

impl SceIntoOkValue for bool {
    open spec fn into_ok_spec(self) -> u32 {
        if self {
            1
        } else {
            0
        }
    }

    fn into_ok_value(self) -> (r: u32) {
        if self {
            1
        } else {
            0
        }
    }
}

impl SceOkRoundTrip for bool {
    proof fn lemma_ok_round_trip(v: bool) {
    }
}

impl SceResultOk for i32 {
    open spec fn ok_value_spec(ok_value: u32) -> Option<i32> {
        Some(ok_value as i32)
    }

    open spec fn ok_value64_spec(ok_value: u64) -> Option<i32> {
        if ok_value <= 0x7FFF_FFFF {
            Some(ok_value as i32)
        } else {
            None
        }
    }

    fn handle_ok_value(ok_value: u32) -> (r: Option<i32>) {
        Some(ok_value as i32)
    }

    fn handle_ok_value64(ok_value: u64) -> (r: Option<i32>) {
        if ok_value <= 0x7FFF_FFFF {
            Some(ok_value as i32)
        } else {
            None
        }
    }
}

impl SceIntoOkValue for i32 {
    open spec fn into_ok_spec(self) -> u32 {
        self as u32
    }

    fn into_ok_value(self) -> (r: u32) {
        self as u32
    }
}

impl SceOkRoundTrip for i32 {
    proof fn lemma_ok_round_trip(v: i32) {
        assert(v < 0 ==> (v as u32) > 0x7FFF_FFFFu32) by (bit_vector);
    }
}

impl SceResultOk for u32 {
    open spec fn ok_value_spec(ok_value: u32) -> Option<u32> {
        Some(ok_value)
    }

    open spec fn ok_value64_spec(ok_value: u64) -> Option<u32> {
        if ok_value <= 0x7FFF_FFFF {
            Some(ok_value as u32)
        } else {
            None
        }
    }

    fn handle_ok_value(ok_value: u32) -> (r: Option<u32>) {
        Some(ok_value)
    }

    fn handle_ok_value64(ok_value: u64) -> (r: Option<u32>) {
        if ok_value <= 0x7FFF_FFFF {
            Some(ok_value as u32)
        } else {
            None
        }
    }
}

impl SceIntoOkValue for u32 {
    open spec fn into_ok_spec(self) -> u32 {
        self
    }

    fn into_ok_value(self) -> (r: u32) {
        self
    }
}

impl SceOkRoundTrip for u32 {
    proof fn lemma_ok_round_trip(v: u32) {
    }
}

/// On the PSP, whose words are 32 bits wide, a success word is read as the value it holds.
impl SceResultOk for isize {
    open spec fn ok_value_spec(ok_value: u32) -> Option<isize> {
        Some(ok_value as isize)
    }

    open spec fn ok_value64_spec(ok_value: u64) -> Option<isize> {
        if ok_value <= 0x7FFF_FFFF {
            Some(ok_value as isize)
        } else {
            None
        }
    }

    fn handle_ok_value(ok_value: u32) -> (r: Option<isize>) {
        Some(ok_value as isize)
    }

    fn handle_ok_value64(ok_value: u64) -> (r: Option<isize>) {
        if ok_value <= 0x7FFF_FFFF {
            Some(ok_value as isize)
        } else {
            None
        }
    }
}

/// The success word of a value is its low 32 bits, all of it on the PSP.
impl SceIntoOkValue for isize {
    open spec fn into_ok_spec(self) -> u32 {
        self as u32
    }

    fn into_ok_value(self) -> (r: u32) {
        self as u32
    }
}

/// On the PSP, whose words are 32 bits wide, a success word is read as the value it holds.
impl SceResultOk for usize {
    open spec fn ok_value_spec(ok_value: u32) -> Option<usize> {
        Some(ok_value as usize)
    }

    open spec fn ok_value64_spec(ok_value: u64) -> Option<usize> {
        if ok_value <= 0x7FFF_FFFF {
            Some(ok_value as usize)
        } else {
            None
        }
    }

    fn handle_ok_value(ok_value: u32) -> (r: Option<usize>) {
        Some(ok_value as usize)
    }

    fn handle_ok_value64(ok_value: u64) -> (r: Option<usize>) {
        if ok_value <= 0x7FFF_FFFF {
            Some(ok_value as usize)
        } else {
            None
        }
    }
}

/// The success word of a value is its low 32 bits, all of it on the PSP.
impl SceIntoOkValue for usize {
    open spec fn into_ok_spec(self) -> u32 {
        self as u32
    }

    fn into_ok_value(self) -> (r: u32) {
        self as u32
    }
}

impl SceResultOk for i64 {
    open spec fn ok_value_spec(ok_value: u32) -> Option<i64> {
        Some(ok_value as i64)
    }

    /// The whole success range is read as the two's complement bit pattern of an `i64`.
    open spec fn ok_value64_spec(ok_value: u64) -> Option<i64> {
        Some(ok_value as i64)
    }

    fn handle_ok_value(ok_value: u32) -> (r: Option<i64>) {
        Some(ok_value as i64)
    }

    fn handle_ok_value64(ok_value: u64) -> (r: Option<i64>) {
        Some(ok_value as i64)
    }
}

impl SceInto64OkValue for i64 {
    open spec fn into_ok64_spec(self) -> u64 {
        self as u64
    }

    fn into_ok_value64(self) -> (r: u64) {
        self as u64
    }
}

impl SceResultOk for u64 {
    open spec fn ok_value_spec(ok_value: u32) -> Option<u64> {
        Some(ok_value as u64)
    }

    open spec fn ok_value64_spec(ok_value: u64) -> Option<u64> {
        Some(ok_value)
    }

    fn handle_ok_value(ok_value: u32) -> (r: Option<u64>) {
        Some(ok_value as u64)
    }

    fn handle_ok_value64(ok_value: u64) -> (r: Option<u64>) {
        Some(ok_value)
    }
}

impl SceInto64OkValue for u64 {
    open spec fn into_ok64_spec(self) -> u64 {
        self
    }

    fn into_ok_value64(self) -> (r: u64) {
        self
    }
}

impl SceResultOk for () {
    open spec fn ok_value_spec(ok_value: u32) -> Option<()> {
        if ok_value == 0 {
            Some(())
        } else {
            None
        }
    }

    open spec fn ok_value64_spec(ok_value: u64) -> Option<()> {
        if ok_value == 0 {
            Some(())
        } else {
            None
        }
    }

    fn handle_ok_value(ok_value: u32) -> (r: Option<()>) {
        if ok_value == 0 {
            Some(())
        } else {
            None
        }
    }

    fn handle_ok_value64(ok_value: u64) -> (r: Option<()>) {
        if ok_value == 0 {
            Some(())
        } else {
            None
        }
    }
}

impl SceIntoOkValue for () {
    open spec fn into_ok_spec(self) -> u32 {
        0
    }

    fn into_ok_value(self) -> (r: u32) {
        0
    }
}

impl SceOkRoundTrip for () {
    proof fn lemma_ok_round_trip(v: ()) {
    }
}

impl SceResultOk for Infallible {
    open spec fn ok_value_spec(ok_value: u32) -> Option<Infallible> {
        None
    }

    open spec fn ok_value64_spec(ok_value: u64) -> Option<Infallible> {
        None
    }

    fn handle_ok_value(ok_value: u32) -> (r: Option<Infallible>) {
        None
    }

    fn handle_ok_value64(ok_value: u64) -> (r: Option<Infallible>) {
        None
    }
}

impl SceResultOk for SceUid {
    open spec fn ok_value_spec(ok_value: u32) -> Option<SceUid> {
        Some(SceUid::spec_new(ok_value))
    }

    open spec fn ok_value64_spec(ok_value: u64) -> Option<SceUid> {
        if ok_value <= 0x7FFF_FFFF {
            Some(SceUid::spec_new(ok_value as u32))
        } else {
            None
        }
    }

    fn handle_ok_value(ok_value: u32) -> (r: Option<SceUid>) {
        Some(SceUid::from_raw_unchecked(ok_value))
    }

    fn handle_ok_value64(ok_value: u64) -> (r: Option<SceUid>) {
        if ok_value <= 0x7FFF_FFFF {
            Some(SceUid::from_raw_unchecked(ok_value as u32))
        } else {
            None
        }
    }
}

impl SceIntoOkValue for SceUid {
    open spec fn into_ok_spec(self) -> u32 {
        self.raw()
    }

    fn into_ok_value(self) -> (r: u32) {
        self.to_inner()
    }
}

impl SceOkRoundTrip for SceUid {
    proof fn lemma_ok_round_trip(v: SceUid) {
    }
}

/// Integer success values are the numbers of their words: a value word (`0..=0x7FFFFFFF`, or
/// `0..=0xFFFFFFFF_7FFFFFFF` for 64 bits) is decoded as the integer with that number when the
/// type holds it, and as no value otherwise; a 64-bit word beyond the 32-bit value range gives a
/// value only for the 64-bit types, whose values are encoded in two's complement.
/// A value is encoded as its number, in two's complement for a negative one.
pub proof fn lemma_integer_words()
    ensures
        forall|n: u32|
            n <= SCE_OK_MAX ==> (if n <= 0x7F {
                #[trigger] <i8 as SceResultOk>::ok_value_spec(n) matches Some(v) && v as int == n as int
            } else {
                <i8 as SceResultOk>::ok_value_spec(n) is None
            }),
        forall|n: u64|
            n <= SCE_OK64_MAX ==> (if n <= 0x7F {
                #[trigger] <i8 as SceResultOk>::ok_value64_spec(n) matches Some(v) && v as int == n as int
            } else {
                <i8 as SceResultOk>::ok_value64_spec(n) is None
            }),
        forall|v: i8|
            #[trigger] v.into_ok_spec() as int == (if v < 0 {
                v + 0x1_0000_0000
            } else {
                v as int
            }),
        forall|n: u32|
            n <= SCE_OK_MAX ==> (if n <= 0xFF {
                #[trigger] <u8 as SceResultOk>::ok_value_spec(n) matches Some(v) && v as int == n as int
            } else {
                <u8 as SceResultOk>::ok_value_spec(n) is None
            }),
        forall|n: u64|
            n <= SCE_OK64_MAX ==> (if n <= 0xFF {
                #[trigger] <u8 as SceResultOk>::ok_value64_spec(n) matches Some(v) && v as int == n as int
            } else {
                <u8 as SceResultOk>::ok_value64_spec(n) is None
            }),
        forall|v: u8| #[trigger] v.into_ok_spec() as int == v as int,
        forall|n: u32|
            n <= SCE_OK_MAX ==> (if n <= 0x7FFF {
                #[trigger] <i16 as SceResultOk>::ok_value_spec(n) matches Some(v) && v as int == n as int
            } else {
                <i16 as SceResultOk>::ok_value_spec(n) is None
            }),
        forall|n: u64|
            n <= SCE_OK64_MAX ==> (if n <= 0x7FFF {
                #[trigger] <i16 as SceResultOk>::ok_value64_spec(n) matches Some(v) && v as int == n as int
            } else {
                <i16 as SceResultOk>::ok_value64_spec(n) is None
            }),
        forall|v: i16|
            #[trigger] v.into_ok_spec() as int == (if v < 0 {
                v + 0x1_0000_0000
            } else {
                v as int
            }),
        forall|n: u32|
            n <= SCE_OK_MAX ==> (if n <= 0xFFFF {
                #[trigger] <u16 as SceResultOk>::ok_value_spec(n) matches Some(v) && v as int == n as int
            } else {
                <u16 as SceResultOk>::ok_value_spec(n) is None
            }),
        forall|n: u64|
            n <= SCE_OK64_MAX ==> (if n <= 0xFFFF {
                #[trigger] <u16 as SceResultOk>::ok_value64_spec(n) matches Some(v) && v as int == n as int
            } else {
                <u16 as SceResultOk>::ok_value64_spec(n) is None
            }),
        forall|v: u16| #[trigger] v.into_ok_spec() as int == v as int,
        forall|n: u32|
            n <= SCE_OK_MAX ==> (if n <= 0x7FFF_FFFF {
                #[trigger] <i32 as SceResultOk>::ok_value_spec(n) matches Some(v) && v as int == n as int
            } else {
                <i32 as SceResultOk>::ok_value_spec(n) is None
            }),
        forall|n: u64|
            n <= SCE_OK64_MAX ==> (if n <= 0x7FFF_FFFF {
                #[trigger] <i32 as SceResultOk>::ok_value64_spec(n) matches Some(v) && v as int == n as int
            } else {
                <i32 as SceResultOk>::ok_value64_spec(n) is None
            }),
        forall|v: i32|
            #[trigger] v.into_ok_spec() as int == (if v < 0 {
                v + 0x1_0000_0000
            } else {
                v as int
            }),
        forall|n: u32|
            n <= SCE_OK_MAX ==> (if n <= 0xFFFF_FFFF {
                #[trigger] <u32 as SceResultOk>::ok_value_spec(n) matches Some(v) && v as int == n as int
            } else {
                <u32 as SceResultOk>::ok_value_spec(n) is None
            }),
        forall|n: u64|
            n <= SCE_OK64_MAX ==> (if n <= 0x7FFF_FFFF {
                #[trigger] <u32 as SceResultOk>::ok_value64_spec(n) matches Some(v) && v as int == n as int
            } else {
                <u32 as SceResultOk>::ok_value64_spec(n) is None
            }),
        forall|v: u32| #[trigger] v.into_ok_spec() as int == v as int,
        forall|n: u32|
            n <= SCE_OK_MAX ==> (#[trigger] <isize as SceResultOk>::ok_value_spec(n) matches Some(v)
                && v as int == n as int),
        forall|n: u64|
            n <= SCE_OK64_MAX ==> (if n <= 0x7FFF_FFFF {
                #[trigger] <isize as SceResultOk>::ok_value64_spec(n) matches Some(v) && v as int == n as int
            } else {
                <isize as SceResultOk>::ok_value64_spec(n) is None
            }),
        forall|v: isize|
            -0x8000_0000 <= v <= 0x7FFF_FFFF ==> #[trigger] v.into_ok_spec() as int == (if v < 0 {
                v + 0x1_0000_0000
            } else {
                v as int
            }),
        forall|n: u32|
            n <= SCE_OK_MAX ==> (#[trigger] <usize as SceResultOk>::ok_value_spec(n) matches Some(v)
                && v as int == n as int),
        forall|n: u64|
            n <= SCE_OK64_MAX ==> (if n <= 0x7FFF_FFFF {
                #[trigger] <usize as SceResultOk>::ok_value64_spec(n) matches Some(v) && v as int == n as int
            } else {
                <usize as SceResultOk>::ok_value64_spec(n) is None
            }),
        forall|v: usize| v <= 0xFFFF_FFFF ==> #[trigger] v.into_ok_spec() as int == v as int,
        forall|n: u32| #[trigger] <i64 as SceResultOk>::ok_value_spec(n) matches Some(v) && v as int
            == n as int,
        forall|n: u64|
            n <= SCE_OK64_MAX ==> (#[trigger] <i64 as SceResultOk>::ok_value64_spec(n) matches Some(v)
                && v as int == (if n <= 0x7FFF_FFFF_FFFF_FFFF {
                n as int
            } else {
                n - 0x1_0000_0000_0000_0000
            })),
        forall|v: i64| #[trigger] v.into_ok64_spec() as int == (if v < 0 {
            v + 0x1_0000_0000_0000_0000
        } else {
            v as int
        }),
        forall|n: u32| #[trigger] <u64 as SceResultOk>::ok_value_spec(n) matches Some(v) && v as int
            == n as int,
        forall|n: u64| #[trigger] <u64 as SceResultOk>::ok_value64_spec(n) matches Some(v) && v == n,
        forall|v: u64| #[trigger] v.into_ok64_spec() == v,
{
    assert forall|v: i8| #[trigger] v.into_ok_spec() as int == (if v < 0 {
        v + 0x1_0000_0000
    } else {
        v as int
    }) by {
        assert(v < 0 ==> (v as u32) as int == v + 0x1_0000_0000) by (bit_vector);
        assert(v >= 0 ==> (v as u32) as int == v as int) by (bit_vector);
    }
    assert forall|v: i16| #[trigger] v.into_ok_spec() as int == (if v < 0 {
        v + 0x1_0000_0000
    } else {
        v as int
    }) by {
        assert(v < 0 ==> (v as u32) as int == v + 0x1_0000_0000) by (bit_vector);
        assert(v >= 0 ==> (v as u32) as int == v as int) by (bit_vector);
    }
    assert forall|v: i32| #[trigger] v.into_ok_spec() as int == (if v < 0 {
        v + 0x1_0000_0000
    } else {
        v as int
    }) by {
        assert(v < 0 ==> (v as u32) as int == v + 0x1_0000_0000) by (bit_vector);
        assert(v >= 0 ==> (v as u32) as int == v as int) by (bit_vector);
    }
    assert forall|v: isize|
        -0x8000_0000 <= v <= 0x7FFF_FFFF implies #[trigger] v.into_ok_spec() as int == (if v < 0 {
            v + 0x1_0000_0000
        } else {
            v as int
        }) by {
        assert(-0x8000_0000 <= v < 0 ==> (v as u32) as int == v + 0x1_0000_0000) by (bit_vector);
        assert(0 <= v <= 0x7FFF_FFFF ==> (v as u32) as int == v as int) by (bit_vector);
    }
    assert forall|v: i64| #[trigger] v.into_ok64_spec() as int == (if v < 0 {
        v + 0x1_0000_0000_0000_0000
    } else {
        v as int
    }) by {
        assert(v < 0 ==> (v as u64) as int == v + 0x1_0000_0000_0000_0000) by (bit_vector);
        assert(v >= 0 ==> (v as u64) as int == v as int) by (bit_vector);
    }
    assert forall|n: u64| n <= SCE_OK64_MAX implies (#[trigger] <i64 as SceResultOk>::ok_value64_spec(
        n,
    ) matches Some(v) && v as int == (if n <= 0x7FFF_FFFF_FFFF_FFFF {
        n as int
    } else {
        n - 0x1_0000_0000_0000_0000
    })) by {
        assert(n > 0x7FFF_FFFF_FFFF_FFFF ==> (n as i64) as int == n - 0x1_0000_0000_0000_0000)
            by (bit_vector);
    }
}

/// A flag is the word 1 when set and 0 when clear, and no other word decodes to a flag; the
/// empty value is the word 0 alone.
pub proof fn lemma_flag_and_unit_words()
    ensures
        <bool as SceResultOk>::ok_value_spec(0) == Some(false),
        <bool as SceResultOk>::ok_value_spec(1) == Some(true),
        forall|n: u32| n > 1 ==> (#[trigger] <bool as SceResultOk>::ok_value_spec(n)) is None,
        <bool as SceResultOk>::ok_value64_spec(0) == Some(false),
        <bool as SceResultOk>::ok_value64_spec(1) == Some(true),
        forall|n: u64| n > 1 ==> (#[trigger] <bool as SceResultOk>::ok_value64_spec(n)) is None,
        true.into_ok_spec() == 1,
        false.into_ok_spec() == 0,
        <() as SceResultOk>::ok_value_spec(0) == Some(()),
        forall|n: u32| n != 0 ==> (#[trigger] <() as SceResultOk>::ok_value_spec(n)) is None,
        <() as SceResultOk>::ok_value64_spec(0) == Some(()),
        forall|n: u64| n != 0 ==> (#[trigger] <() as SceResultOk>::ok_value64_spec(n)) is None,
        ().into_ok_spec() == 0,
        forall|n: u32| (#[trigger] <Infallible as SceResultOk>::ok_value_spec(n)) is None,
        forall|n: u64| (#[trigger] <Infallible as SceResultOk>::ok_value64_spec(n)) is None,
        forall|n: u32|
            n <= SCE_OK_MAX ==> (#[trigger] <SceUid as SceResultOk>::ok_value_spec(n) matches Some(
                id,
            ) && id.raw() == n),
        forall|n: u64|
            n <= SCE_OK64_MAX ==> (if n <= 0x7FFF_FFFF {
                #[trigger] <SceUid as SceResultOk>::ok_value64_spec(n) matches Some(id) && id.raw()
                    == n
            } else {
                <SceUid as SceResultOk>::ok_value64_spec(n) is None
            }),
        forall|id: SceUid| #[trigger] id.into_ok_spec() == id.raw(),
{
}

// ---------------------------------------------------------------------------------------------
// Laws of the result words.
// ---------------------------------------------------------------------------------------------
/// Every result word is either a success or an error, and never both.
pub proof fn lemma_result_kinds<T>(r: SceResult<T>)
    ensures
        r.spec_is_ok() <==> !r.spec_is_err(),
        r.spec_is_ok() <==> r.raw() <= 0x8000_0000,
{
}

/// Every 64-bit result word is either a success or an error, and never both.
pub proof fn lemma_result64_kinds<T>(r: SceResult64<T>)
    ensures
        r.spec_is_ok() <==> !r.spec_is_err(),
        r.spec_is_ok() <==> r.raw() <= SCE_UNUSED64,
{
}

/// A result converts to `Ok` exactly when its word is a value word (`0..=0x7FFFFFFF`) that
/// stands for a value of `T`, and every error word converts to the error with the same code.
pub proof fn lemma_into_result_cases<T: SceResultOk>(r: SceResult<T>)
    ensures
        r.spec_into_result() is Ok <==> (r.raw() <= SCE_OK_MAX && T::ok_value_spec(r.raw())
            is Some),
        r.spec_is_err() ==> r.spec_into_result() == Err::<T, SceError>(
            SceError::spec_new(r.raw()),
        ),
{
}

/// A 64-bit result converts to `Ok` exactly when its word is a value word
/// (`0..=0xFFFFFFFF_7FFFFFFF`) that stands for a value of `T`, and every error word converts to
/// the error coded in its lower half.
pub proof fn lemma_into_result64_cases<T: SceResultOk>(r: SceResult64<T>)
    ensures
        r.spec_into_result() is Ok <==> (r.raw() <= SCE_OK64_MAX && T::ok_value64_spec(r.raw())
            is Some),
        r.spec_is_err() ==> r.spec_into_result() == Err::<T, SceError>(error_of_word64(r.raw())),
        r.spec_is_err() ==> error_of_word64(r.raw()).raw() as u64 + SCE_ERROR64_HIGH == r.raw(),
{
}

/// The `?` operator continues with the very value that a successful result was made from.
pub proof fn lemma_branch_from_output<T: SceOkRoundTrip>(v: T)
    requires
        v.into_ok_spec() <= SCE_OK_MAX,
    ensures
        SceResult::<T>::spec_new(v.into_ok_spec()).spec_branch() == ControlFlow::<
            SceResult<Infallible>,
            T,
        >::Continue(v),
{
    T::lemma_ok_round_trip(v);
}

/// An error taken out of one result with the `?` operator is the same error in the result it
/// is carried on to, whatever that result's success type.
pub proof fn lemma_residual_keeps_error<T: SceResultOk + SceIntoOkValue, U: SceResultOk>(
    r: SceResult<T>,
)
    requires
        r.spec_into_result() is Err,
    ensures
        r.spec_branch() matches ControlFlow::Break(residual) && SceResult::<U>::spec_new(
            residual.raw(),
        ).spec_into_result() == Err::<U, SceError>(r.spec_into_result()->Err_0),
{
    let e = r.spec_into_result()->Err_0;
    assert(SceResult::<Infallible>::spec_new(e.raw()).raw() == e.raw());
}

/// An error taken out of one 64-bit result with the `?` operator is the same error in the
/// result it is carried on to, whatever that result's success type.
pub proof fn lemma_residual64_keeps_error<T: SceResultOk + SceInto64OkValue, U: SceResultOk>(
    r: SceResult64<T>,
)
    requires
        r.spec_into_result() is Err,
    ensures
        r.spec_branch() matches ControlFlow::Break(residual) && SceResult64::<U>::spec_new(
            residual.raw(),
        ).spec_into_result() == Err::<U, SceError>(r.spec_into_result()->Err_0),
{
    let e = r.spec_into_result()->Err_0;
    let w = (SCE_ERROR64_HIGH + e.raw()) as u64;
    assert(SceResult64::<Infallible>::spec_new(w).raw() == w);
    assert(SceError::spec_new((w - SCE_ERROR64_HIGH) as u32) == e);
}


/// Reading back the 64-bit success word of an unsigned 64-bit value gives the value,
/// whenever that word lies in the success range.
pub proof fn lemma_ok64_round_trip_u64(v: u64)
    requires
        v.into_ok64_spec() <= SCE_OK64_MAX,
    ensures
        <u64 as SceResultOk>::ok_value64_spec(v.into_ok64_spec()) == Some(v),
{
}

/// Reading back the 64-bit success word of a signed 64-bit value gives the value, whenever
/// that word lies in the success range.
pub proof fn lemma_ok64_round_trip_i64(v: i64)
    requires
        v.into_ok64_spec() <= SCE_OK64_MAX,
    ensures
        <i64 as SceResultOk>::ok_value64_spec(v.into_ok64_spec()) == Some(v),
{
    assert((v as u64) as i64 == v) by (bit_vector);
}

/// The `?` operator on a 64-bit result continues with the very value that a successful
/// result was made from, for unsigned 64-bit values.
pub proof fn lemma_branch64_from_output_u64(v: u64)
    requires
        v <= SCE_OK64_MAX,
    ensures
        SceResult64::<u64>::spec_new(v.into_ok64_spec()).spec_branch() == ControlFlow::<
            SceResult64<Infallible>,
            u64,
        >::Continue(v),
{
}

} // verus!
