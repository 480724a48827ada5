//! Random identifiers for test data: a random value of the held type,
//! drawn by `fake`'s `Faker`, wrapped.
use crate::id::Id;
use fake::Fake;
use vstd::prelude::*;

verus! {

/// A value type that `fake`'s `Faker` can draw at random.
pub trait FakeRepr: View + Sized {
    /// What holds of every value that a draw can give.
    spec fn may_draw(v: Self::V) -> bool;

    /// Draws a value at random, from the thread's generator.
    fn fake() -> (r: Self)
        ensures
            Self::may_draw(r@),
    ;
}

/// Relies on `Faker`'s `Dummy` for `i8`: any `i8` may come, zero included.
#[verifier::external_body]
fn draw_i8() -> (r: i8) {
    fake::Faker.fake::<i8>()
}

impl FakeRepr for i8 {
    open spec fn may_draw(v: i8) -> bool {
        true
    }

    fn fake() -> (r: i8) {
        draw_i8()
    }
}

/// Relies on `Faker`'s `Dummy` for `i16`: any `i16` may come, zero included.
#[verifier::external_body]
fn draw_i16() -> (r: i16) {
    fake::Faker.fake::<i16>()
}

impl FakeRepr for i16 {
    open spec fn may_draw(v: i16) -> bool {
        true
    }

    fn fake() -> (r: i16) {
        draw_i16()
    }
}

/// Relies on `Faker`'s `Dummy` for `i32`: any `i32` may come, zero included.
#[verifier::external_body]
fn draw_i32() -> (r: i32) {
    fake::Faker.fake::<i32>()
}

impl FakeRepr for i32 {
    open spec fn may_draw(v: i32) -> bool {
        true
    }

    fn fake() -> (r: i32) {
        draw_i32()
    }
}

/// Relies on `Faker`'s `Dummy` for `i64`: any `i64` may come, zero included.
#[verifier::external_body]
fn draw_i64() -> (r: i64) {
    fake::Faker.fake::<i64>()
}

impl FakeRepr for i64 {
    open spec fn may_draw(v: i64) -> bool {
        true
    }

    fn fake() -> (r: i64) {
        draw_i64()
    }
}

/// Relies on `Faker`'s `Dummy` for `i128`: any `i128` may come, zero included.
#[verifier::external_body]
fn draw_i128() -> (r: i128) {
    fake::Faker.fake::<i128>()
}

impl FakeRepr for i128 {
    open spec fn may_draw(v: i128) -> bool {
        true
    }

    fn fake() -> (r: i128) {
        draw_i128()
    }
}

/// Relies on `Faker`'s `Dummy` for `u8`: any `u8` may come, zero included.
#[verifier::external_body]
fn draw_u8() -> (r: u8) {
    fake::Faker.fake::<u8>()
}

impl FakeRepr for u8 {
    open spec fn may_draw(v: u8) -> bool {
        true
    }

    fn fake() -> (r: u8) {
        draw_u8()
    }
}

/// Relies on `Faker`'s `Dummy` for `u16`: any `u16` may come, zero included.
#[verifier::external_body]
fn draw_u16() -> (r: u16) {
    fake::Faker.fake::<u16>()
}

impl FakeRepr for u16 {
    open spec fn may_draw(v: u16) -> bool {
        true
    }

    fn fake() -> (r: u16) {
        draw_u16()
    }
}

/// Relies on `Faker`'s `Dummy` for `u32`: any `u32` may come, zero included.
#[verifier::external_body]
fn draw_u32() -> (r: u32) {
    fake::Faker.fake::<u32>()
}

impl FakeRepr for u32 {
    open spec fn may_draw(v: u32) -> bool {
        true
    }

    fn fake() -> (r: u32) {
        draw_u32()
    }
}

/// Relies on `Faker`'s `Dummy` for `u64`: any `u64` may come, zero included.
#[verifier::external_body]
fn draw_u64() -> (r: u64) {
    fake::Faker.fake::<u64>()
}

impl FakeRepr for u64 {
    open spec fn may_draw(v: u64) -> bool {
        true
    }

    fn fake() -> (r: u64) {
        draw_u64()
    }
}

/// Relies on `Faker`'s `Dummy` for `u128`: any `u128` may come, zero included.
#[verifier::external_body]
fn draw_u128() -> (r: u128) {
    fake::Faker.fake::<u128>()
}

impl FakeRepr for u128 {
    open spec fn may_draw(v: u128) -> bool {
        true
    }

    fn fake() -> (r: u128) {
        draw_u128()
    }
}

/// Whether `c` is an ASCII letter or digit.
pub open spec fn is_alphanumeric(c: char) -> bool {
    ('0' <= c && c <= '9') || ('A' <= c && c <= 'Z') || ('a' <= c && c <= 'z')
}

/// Relies on `Faker`'s `Dummy` for `String`: from 5 to 19 characters, each
/// an ASCII letter or digit.
#[verifier::external_body]
fn draw_string() -> (r: String)
    ensures
        5 <= r@.len() < 20,
        forall|i: int| 0 <= i < r@.len() ==> is_alphanumeric(#[trigger] r@[i]),
{
    fake::Faker.fake::<String>()
}

impl FakeRepr for String {
    open spec fn may_draw(v: Seq<char>) -> bool {
        &&& 5 <= v.len() < 20
        &&& forall|i: int| 0 <= i < v.len() ==> is_alphanumeric(#[trigger] v[i])
    }

    fn fake() -> (r: String) {
        draw_string()
    }
}

impl<T, U: FakeRepr> Id<T, U> {
    /// A random identifier: a value drawn at random, wrapped. The value is
    /// whatever the draw gave; zero is not set apart.
    pub fn fake() -> (r: Self)
        ensures
            U::may_draw(r.value()@),
    {
        Self::new(U::fake())
    }
}

} // verus!
