//! The typed wrappers that secured fields take in the generated models.
use std::marker::PhantomData;
use std::ops::{Deref, DerefMut};
use vstd::prelude::*;

verus! {

/// A typed wrapper for index data: the bytes that an index provider
/// derived from a value of type `T`.
#[derive(Debug, PartialEq, Eq)]
pub struct Indexed<T> {
    pub bytes: Vec<u8>,
    _marker: PhantomData<T>,
}

impl<T> View for Indexed<T> {
    type V = Seq<u8>;

    closed spec fn view(&self) -> Seq<u8> {
        self.bytes@
    }
}

impl<T> Indexed<T> {
    /// Wraps the given bytes.
    pub fn new(bytes: Vec<u8>) -> (r: Self)
        ensures
            r@ == bytes@,
    {
        Self { bytes, _marker: PhantomData::<T> }
    }
}

impl<T> Deref for Indexed<T> {
    type Target = Vec<u8>;

    fn deref(&self) -> (r: &Vec<u8>)
        ensures
            r@ == self@,
    {
        &self.bytes
    }
}

/// A typed wrapper for encrypted bytes: the ciphertext of a value of type `T`.
#[derive(Debug, PartialEq, Eq)]
pub struct Encrypted<T> {
    pub bytes: Vec<u8>,
    _marker: PhantomData<T>,
}

impl<T> View for Encrypted<T> {
    type V = Seq<u8>;

    closed spec fn view(&self) -> Seq<u8> {
        self.bytes@
    }
}

impl<T> Encrypted<T> {
    /// Wraps the given bytes.
    pub fn new(bytes: Vec<u8>) -> (r: Self)
        ensures
            r@ == bytes@,
    {
        Self { bytes, _marker: PhantomData::<T> }
    }
}

impl<T> Deref for Encrypted<T> {
    type Target = Vec<u8>;

    fn deref(&self) -> (r: &Vec<u8>)
        ensures
            r@ == self@,
    {
        &self.bytes
    }
}

/// A typed wrapper for one-way secret-hashed bytes of a value of type `T`.
#[derive(Debug, PartialEq, Eq)]
pub struct Secret<T> {
    pub bytes: Vec<u8>,
    _marker: PhantomData<T>,
}

impl<T> View for Secret<T> {
    type V = Seq<u8>;

    closed spec fn view(&self) -> Seq<u8> {
        self.bytes@
    }
}

impl<T> Secret<T> {
    /// Wraps the given bytes.
    pub fn new(bytes: Vec<u8>) -> (r: Self)
        ensures
            r@ == bytes@,
    {
        Self { bytes, _marker: PhantomData::<T> }
    }
}

impl<T> Deref for Secret<T> {
    type Target = Vec<u8>;

    fn deref(&self) -> (r: &Vec<u8>)
        ensures
            r@ == self@,
    {
        &self.bytes
    }
}

/// A typed wrapper for digest bytes of a value of type `T`.
///
/// Digests are irreversible, so the same wrapper serves both the locked and the
/// unlocked model.
#[derive(Debug, PartialEq, Eq)]
pub struct Digested<T> {
    pub bytes: Vec<u8>,
    _marker: PhantomData<T>,
}

impl<T> View for Digested<T> {
    type V = Seq<u8>;

    closed spec fn view(&self) -> Seq<u8> {
        self.bytes@
    }
}

impl<T> Digested<T> {
    /// Wraps the given bytes.
    pub fn new(bytes: Vec<u8>) -> (r: Self)
        ensures
            r@ == bytes@,
    {
        Self { bytes, _marker: PhantomData::<T> }
    }
}

impl<T> Deref for Digested<T> {
    type Target = Vec<u8>;

    fn deref(&self) -> (r: &Vec<u8>)
        ensures
            r@ == self@,
    {
        &self.bytes
    }
}

/// A typed wrapper for signed payload bytes of a value of type `T`: the
/// locked state of the `Sign` policy.
#[derive(Debug, PartialEq, Eq)]
pub struct Signed<T> {
    pub bytes: Vec<u8>,
    _marker: PhantomData<T>,
}

impl<T> View for Signed<T> {
    type V = Seq<u8>;

    closed spec fn view(&self) -> Seq<u8> {
        self.bytes@
    }
}

impl<T> Signed<T> {
    /// Wraps the given bytes.
    pub fn new(bytes: Vec<u8>) -> (r: Self)
        ensures
            r@ == bytes@,
    {
        Self { bytes, _marker: PhantomData::<T> }
    }
}

impl<T> Deref for Signed<T> {
    type Target = Vec<u8>;

    fn deref(&self) -> (r: &Vec<u8>)
        ensures
            r@ == self@,
    {
        &self.bytes
    }
}

/// A typed wrapper for MAC (message authentication code) tagged bytes of a
/// value of type `T`: the locked state of the `Mac` policy.
#[derive(Debug, PartialEq, Eq)]
pub struct Tagged<T> {
    pub bytes: Vec<u8>,
    _marker: PhantomData<T>,
}

impl<T> View for Tagged<T> {
    type V = Seq<u8>;

    closed spec fn view(&self) -> Seq<u8> {
        self.bytes@
    }
}

impl<T> Tagged<T> {
    /// Wraps the given bytes.
    pub fn new(bytes: Vec<u8>) -> (r: Self)
        ensures
            r@ == bytes@,
    {
        Self { bytes, _marker: PhantomData::<T> }
    }
}

impl<T> Deref for Tagged<T> {
    type Target = Vec<u8>;

    fn deref(&self) -> (r: &Vec<u8>)
        ensures
            r@ == self@,
    {
        &self.bytes
    }
}

/// A typed wrapper for decrypted data: the plaintext value of an `Encrypt`
/// field in the unlocked model.
#[derive(Debug, PartialEq, Eq)]
pub struct Decrypted<T> {
    pub data: T,
}

impl<T> Decrypted<T> {
    /// Wraps the given value.
    pub fn new(data: T) -> (r: Self)
        ensures
            r.data == data,
    {
        Self { data }
    }
}

impl<T> Deref for Decrypted<T> {
    type Target = T;

    fn deref(&self) -> (r: &T)
        ensures
            *r == self.data,
    {
        &self.data
    }
}

impl<T> DerefMut for Decrypted<T> {
    fn deref_mut(&mut self) -> (r: &mut T)
        ensures
            *r == old(self).data,
            final(self).data == *final(r),
    {
        &mut self.data
    }
}

/// A typed wrapper for verified data from the `Sign` and `Mac` policies: the
/// decoded value after the provider has checked it.
#[derive(Debug, PartialEq, Eq)]
pub struct Verified<T> {
    pub data: T,
}

impl<T> Verified<T> {
    /// Wraps the given value.
    pub fn new(data: T) -> (r: Self)
        ensures
            r.data == data,
    {
        Self { data }
    }
}

impl<T> Deref for Verified<T> {
    type Target = T;

    fn deref(&self) -> (r: &T)
        ensures
            *r == self.data,
    {
        &self.data
    }
}

impl<T> DerefMut for Verified<T> {
    fn deref_mut(&mut self) -> (r: &mut T)
        ensures
            *r == old(self).data,
            final(self).data == *final(r),
    {
        &mut self.data
    }
}

} // verus!
