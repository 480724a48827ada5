//! JSON form of identifiers: each supported value type is written with
//! JSON's own primitive for it, and an identifier exactly as its value.
use crate::id::Id;
use crate::text::{int_text, lemma_int_text_injective, lemma_quoted_injective, quoted};
use vstd::prelude::*;

verus! {

/// `serde_json::Error`, the error that JSON reading reports (a type
/// mismatch, a malformed text, a number out of range).
#[verifier::external_type_specification]
#[verifier::external_body]
pub struct ExJsonError(serde_json::Error);

/// A value type with a native JSON form.
///
/// Each implementation is wired to JSON's primitive for that type: an
/// integer of any width is a JSON number, a string is a JSON string. A type
/// without an implementation has no JSON form, rather than a generic one.
pub trait JsonRepr: View + Sized {
    /// The JSON text that a value with view `v` is written as.
    spec fn json_text(v: Self::V) -> Seq<char>;

    /// Texts that are never read as a value of this type: for a number, a
    /// JSON string; for a string, a JSON number.
    spec fn json_mismatch(s: Seq<char>) -> bool;

    /// Distinct values are written as distinct texts.
    proof fn lemma_json_text_injective(a: Self::V, b: Self::V)
        requires
            Self::json_text(a) == Self::json_text(b),
        ensures
            a == b,
    ;

    /// Writes the value as JSON.
    fn to_json(&self) -> (r: String)
        ensures
            r@ == Self::json_text(self@),
    ;

    /// Reads a value from JSON; a failure is JSON's own error, which names
    /// the type that was expected.
    fn from_json(s: &str) -> (r: Result<Self, serde_json::Error>)
        ensures
            forall|v: Self::V| #[trigger] Self::json_text(v) == s@ ==> (r matches Ok(x) && x@ == v),
            Self::json_mismatch(s@) ==> r is Err,
    ;
}

/// Whether `s` starts as a JSON string does.
pub open spec fn starts_as_string(s: Seq<char>) -> bool {
    s.len() > 0 && s[0] == '"'
}

/// Whether `s` starts as a JSON number does.
pub open spec fn starts_as_number(s: Seq<char>) -> bool {
    s.len() > 0 && (s[0] == '-' || ('0' <= s[0] && s[0] <= '9'))
}

/// The value that JSON text `s` stands for as a `U`, if `s` is the text of
/// some value of `U`.
pub open spec fn json_decoded<U: JsonRepr>(s: Seq<char>) -> Option<U::V> {
    if exists|v: U::V| #[trigger] U::json_text(v) == s {
        Some(choose|v: U::V| #[trigger] U::json_text(v) == s)
    } else {
        None
    }
}

/// Relies on `serde_json::to_string` for `i8`: an integer is written in
/// decimal, with a minus sign when negative, and writing it cannot fail.
#[verifier::external_body]
fn i8_to_json(v: &i8) -> (r: Result<String, serde_json::Error>)
    ensures
        r is Ok && r->Ok_0@ == int_text(*v as int),
{
    serde_json::to_string(v)
}

/// Relies on `serde_json::from_str` for `i8`: the decimal text of an `i8`
/// reads back as that number, and a JSON string is refused.
#[verifier::external_body]
fn i8_from_json(s: &str) -> (r: Result<i8, serde_json::Error>)
    ensures
        forall|v: i8| int_text(v as int) == s@ ==> r is Ok && r->Ok_0 == v,
        starts_as_string(s@) ==> r is Err,
{
    serde_json::from_str(s)
}

impl JsonRepr for i8 {
    open spec fn json_text(v: i8) -> Seq<char> {
        int_text(v as int)
    }

    open spec fn json_mismatch(s: Seq<char>) -> bool {
        starts_as_string(s)
    }

    proof fn lemma_json_text_injective(a: i8, b: i8) {
        lemma_int_text_injective(a as int, b as int);
    }

    fn to_json(&self) -> (r: String) {
        i8_to_json(self).unwrap()
    }

    fn from_json(s: &str) -> (r: Result<i8, serde_json::Error>) {
        i8_from_json(s)
    }
}

/// Relies on `serde_json::to_string` for `i16`: an integer is written in
/// decimal, with a minus sign when negative, and writing it cannot fail.
#[verifier::external_body]
fn i16_to_json(v: &i16) -> (r: Result<String, serde_json::Error>)
    ensures
        r is Ok && r->Ok_0@ == int_text(*v as int),
{
    serde_json::to_string(v)
}

/// Relies on `serde_json::from_str` for `i16`: the decimal text of an `i16`
/// reads back as that number, and a JSON string is refused.
#[verifier::external_body]
fn i16_from_json(s: &str) -> (r: Result<i16, serde_json::Error>)
    ensures
        forall|v: i16| int_text(v as int) == s@ ==> r is Ok && r->Ok_0 == v,
        starts_as_string(s@) ==> r is Err,
{
    serde_json::from_str(s)
}

impl JsonRepr for i16 {
    open spec fn json_text(v: i16) -> Seq<char> {
        int_text(v as int)
    }

    open spec fn json_mismatch(s: Seq<char>) -> bool {
        starts_as_string(s)
    }

    proof fn lemma_json_text_injective(a: i16, b: i16) {
        lemma_int_text_injective(a as int, b as int);
    }

    fn to_json(&self) -> (r: String) {
        i16_to_json(self).unwrap()
    }

    fn from_json(s: &str) -> (r: Result<i16, serde_json::Error>) {
        i16_from_json(s)
    }
}

/// Relies on `serde_json::to_string` for `i32`: an integer is written in
/// decimal, with a minus sign when negative, and writing it cannot fail.
#[verifier::external_body]
fn i32_to_json(v: &i32) -> (r: Result<String, serde_json::Error>)
    ensures
        r is Ok && r->Ok_0@ == int_text(*v as int),
{
    serde_json::to_string(v)
}

/// Relies on `serde_json::from_str` for `i32`: the decimal text of an `i32`
/// reads back as that number, and a JSON string is refused.
#[verifier::external_body]
fn i32_from_json(s: &str) -> (r: Result<i32, serde_json::Error>)
    ensures
        forall|v: i32| int_text(v as int) == s@ ==> r is Ok && r->Ok_0 == v,
        starts_as_string(s@) ==> r is Err,
{
    serde_json::from_str(s)
}

impl JsonRepr for i32 {
    open spec fn json_text(v: i32) -> Seq<char> {
        int_text(v as int)
    }

    open spec fn json_mismatch(s: Seq<char>) -> bool {
        starts_as_string(s)
    }

    proof fn lemma_json_text_injective(a: i32, b: i32) {
        lemma_int_text_injective(a as int, b as int);
    }

    fn to_json(&self) -> (r: String) {
        i32_to_json(self).unwrap()
    }

    fn from_json(s: &str) -> (r: Result<i32, serde_json::Error>) {
        i32_from_json(s)
    }
}

/// Relies on `serde_json::to_string` for `i64`: an integer is written in
/// decimal, with a minus sign when negative, and writing it cannot fail.
#[verifier::external_body]
fn i64_to_json(v: &i64) -> (r: Result<String, serde_json::Error>)
    ensures
        r is Ok && r->Ok_0@ == int_text(*v as int),
{
    serde_json::to_string(v)
}

/// Relies on `serde_json::from_str` for `i64`: the decimal text of an `i64`
/// reads back as that number, and a JSON string is refused.
#[verifier::external_body]
fn i64_from_json(s: &str) -> (r: Result<i64, serde_json::Error>)
    ensures
        forall|v: i64| int_text(v as int) == s@ ==> r is Ok && r->Ok_0 == v,
        starts_as_string(s@) ==> r is Err,
{
    serde_json::from_str(s)
}

impl JsonRepr for i64 {
    open spec fn json_text(v: i64) -> Seq<char> {
        int_text(v as int)
    }

    open spec fn json_mismatch(s: Seq<char>) -> bool {
        starts_as_string(s)
    }

    proof fn lemma_json_text_injective(a: i64, b: i64) {
        lemma_int_text_injective(a as int, b as int);
    }

    fn to_json(&self) -> (r: String) {
        i64_to_json(self).unwrap()
    }

    fn from_json(s: &str) -> (r: Result<i64, serde_json::Error>) {
        i64_from_json(s)
    }
}

/// Relies on `serde_json::to_string` for `i128`: an integer is written in
/// decimal, with a minus sign when negative, and writing it cannot fail.
#[verifier::external_body]
fn i128_to_json(v: &i128) -> (r: Result<String, serde_json::Error>)
    ensures
        r is Ok && r->Ok_0@ == int_text(*v as int),
{
    serde_json::to_string(v)
}

/// Relies on `serde_json::from_str` for `i128`: the decimal text of an `i128`
/// reads back as that number, and a JSON string is refused.
#[verifier::external_body]
fn i128_from_json(s: &str) -> (r: Result<i128, serde_json::Error>)
    ensures
        forall|v: i128| int_text(v as int) == s@ ==> r is Ok && r->Ok_0 == v,
        starts_as_string(s@) ==> r is Err,
{
    serde_json::from_str(s)
}

impl JsonRepr for i128 {
    open spec fn json_text(v: i128) -> Seq<char> {
        int_text(v as int)
    }

    open spec fn json_mismatch(s: Seq<char>) -> bool {
        starts_as_string(s)
    }

    proof fn lemma_json_text_injective(a: i128, b: i128) {
        lemma_int_text_injective(a as int, b as int);
    }

    fn to_json(&self) -> (r: String) {
        i128_to_json(self).unwrap()
    }

    fn from_json(s: &str) -> (r: Result<i128, serde_json::Error>) {
        i128_from_json(s)
    }
}

/// Relies on `serde_json::to_string` for `u8`: an integer is written in
/// decimal, and writing it cannot fail.
#[verifier::external_body]
fn u8_to_json(v: &u8) -> (r: Result<String, serde_json::Error>)
    ensures
        r is Ok && r->Ok_0@ == int_text(*v as int),
{
    serde_json::to_string(v)
}

/// Relies on `serde_json::from_str` for `u8`: the decimal text of a `u8`
/// reads back as that number, and a JSON string is refused.
#[verifier::external_body]
fn u8_from_json(s: &str) -> (r: Result<u8, serde_json::Error>)
    ensures
        forall|v: u8| int_text(v as int) == s@ ==> r is Ok && r->Ok_0 == v,
        starts_as_string(s@) ==> r is Err,
{
    serde_json::from_str(s)
}

impl JsonRepr for u8 {
    open spec fn json_text(v: u8) -> Seq<char> {
        int_text(v as int)
    }

    open spec fn json_mismatch(s: Seq<char>) -> bool {
        starts_as_string(s)
    }

    proof fn lemma_json_text_injective(a: u8, b: u8) {
        lemma_int_text_injective(a as int, b as int);
    }

    fn to_json(&self) -> (r: String) {
        u8_to_json(self).unwrap()
    }

    fn from_json(s: &str) -> (r: Result<u8, serde_json::Error>) {
        u8_from_json(s)
    }
}

/// Relies on `serde_json::to_string` for `u16`: an integer is written in
/// decimal, and writing it cannot fail.
#[verifier::external_body]
fn u16_to_json(v: &u16) -> (r: Result<String, serde_json::Error>)
    ensures
        r is Ok && r->Ok_0@ == int_text(*v as int),
{
    serde_json::to_string(v)
}

/// Relies on `serde_json::from_str` for `u16`: the decimal text of a `u16`
/// reads back as that number, and a JSON string is refused.
#[verifier::external_body]
fn u16_from_json(s: &str) -> (r: Result<u16, serde_json::Error>)
    ensures
        forall|v: u16| int_text(v as int) == s@ ==> r is Ok && r->Ok_0 == v,
        starts_as_string(s@) ==> r is Err,
{
    serde_json::from_str(s)
}

impl JsonRepr for u16 {
    open spec fn json_text(v: u16) -> Seq<char> {
        int_text(v as int)
    }

    open spec fn json_mismatch(s: Seq<char>) -> bool {
        starts_as_string(s)
    }

    proof fn lemma_json_text_injective(a: u16, b: u16) {
        lemma_int_text_injective(a as int, b as int);
    }

    fn to_json(&self) -> (r: String) {
        u16_to_json(self).unwrap()
    }

    fn from_json(s: &str) -> (r: Result<u16, serde_json::Error>) {
        u16_from_json(s)
    }
}

/// Relies on `serde_json::to_string` for `u32`: an integer is written in
/// decimal, and writing it cannot fail.
#[verifier::external_body]
fn u32_to_json(v: &u32) -> (r: Result<String, serde_json::Error>)
    ensures
        r is Ok && r->Ok_0@ == int_text(*v as int),
{
    serde_json::to_string(v)
}

/// Relies on `serde_json::from_str` for `u32`: the decimal text of a `u32`
/// reads back as that number, and a JSON string is refused.
#[verifier::external_body]
fn u32_from_json(s: &str) -> (r: Result<u32, serde_json::Error>)
    ensures
        forall|v: u32| int_text(v as int) == s@ ==> r is Ok && r->Ok_0 == v,
        starts_as_string(s@) ==> r is Err,
{
    serde_json::from_str(s)
}

impl JsonRepr for u32 {
    open spec fn json_text(v: u32) -> Seq<char> {
        int_text(v as int)
    }

    open spec fn json_mismatch(s: Seq<char>) -> bool {
        starts_as_string(s)
    }

    proof fn lemma_json_text_injective(a: u32, b: u32) {
        lemma_int_text_injective(a as int, b as int);
    }

    fn to_json(&self) -> (r: String) {
        u32_to_json(self).unwrap()
    }

    fn from_json(s: &str) -> (r: Result<u32, serde_json::Error>) {
        u32_from_json(s)
    }
}

/// Relies on `serde_json::to_string` for `u64`: an integer is written in
/// decimal, and writing it cannot fail.
#[verifier::external_body]
fn u64_to_json(v: &u64) -> (r: Result<String, serde_json::Error>)
    ensures
        r is Ok && r->Ok_0@ == int_text(*v as int),
{
    serde_json::to_string(v)
}

/// Relies on `serde_json::from_str` for `u64`: the decimal text of a `u64`
/// reads back as that number, and a JSON string is refused.
#[verifier::external_body]
fn u64_from_json(s: &str) -> (r: Result<u64, serde_json::Error>)
    ensures
        forall|v: u64| int_text(v as int) == s@ ==> r is Ok && r->Ok_0 == v,
        starts_as_string(s@) ==> r is Err,
{
    serde_json::from_str(s)
}

impl JsonRepr for u64 {
    open spec fn json_text(v: u64) -> Seq<char> {
        int_text(v as int)
    }

    open spec fn json_mismatch(s: Seq<char>) -> bool {
        starts_as_string(s)
    }

    proof fn lemma_json_text_injective(a: u64, b: u64) {
        lemma_int_text_injective(a as int, b as int);
    }

    fn to_json(&self) -> (r: String) {
        u64_to_json(self).unwrap()
    }

    fn from_json(s: &str) -> (r: Result<u64, serde_json::Error>) {
        u64_from_json(s)
    }
}

/// Relies on `serde_json::to_string` for `u128`: an integer is written in
/// decimal, and writing it cannot fail.
#[verifier::external_body]
fn u128_to_json(v: &u128) -> (r: Result<String, serde_json::Error>)
    ensures
        r is Ok && r->Ok_0@ == int_text(*v as int),
{
    serde_json::to_string(v)
}

/// Relies on `serde_json::from_str` for `u128`: the decimal text of a `u128`
/// reads back as that number, and a JSON string is refused.
#[verifier::external_body]
fn u128_from_json(s: &str) -> (r: Result<u128, serde_json::Error>)
    ensures
        forall|v: u128| int_text(v as int) == s@ ==> r is Ok && r->Ok_0 == v,
        starts_as_string(s@) ==> r is Err,
{
    serde_json::from_str(s)
}

impl JsonRepr for u128 {
    open spec fn json_text(v: u128) -> Seq<char> {
        int_text(v as int)
    }

    open spec fn json_mismatch(s: Seq<char>) -> bool {
        starts_as_string(s)
    }

    proof fn lemma_json_text_injective(a: u128, b: u128) {
        lemma_int_text_injective(a as int, b as int);
    }

    fn to_json(&self) -> (r: String) {
        u128_to_json(self).unwrap()
    }

    fn from_json(s: &str) -> (r: Result<u128, serde_json::Error>) {
        u128_from_json(s)
    }
}

/// Relies on `serde_json::to_string` for `String`: the characters are
/// escaped as `quoted` says and put between double quotes, and writing
/// cannot fail.
#[verifier::external_body]
fn string_to_json(v: &String) -> (r: Result<String, serde_json::Error>)
    ensures
        r is Ok && r->Ok_0@ == quoted(v@),
{
    serde_json::to_string(v)
}

/// Relies on `serde_json::from_str` for `String`: a quoted, escaped text
/// reads back as the characters it was made from, and a JSON number is
/// refused.
#[verifier::external_body]
fn string_from_json(s: &str) -> (r: Result<String, serde_json::Error>)
    ensures
        forall|v: Seq<char>| quoted(v) == s@ ==> r is Ok && r->Ok_0@ == v,
        starts_as_number(s@) ==> r is Err,
{
    serde_json::from_str(s)
}

impl JsonRepr for String {
    open spec fn json_text(v: Seq<char>) -> Seq<char> {
        quoted(v)
    }

    open spec fn json_mismatch(s: Seq<char>) -> bool {
        starts_as_number(s)
    }

    proof fn lemma_json_text_injective(a: Seq<char>, b: Seq<char>) {
        lemma_quoted_injective(a, b);
    }

    fn to_json(&self) -> (r: String) {
        string_to_json(self).unwrap()
    }

    fn from_json(s: &str) -> (r: Result<String, serde_json::Error>) {
        string_from_json(s)
    }
}

impl<T, U: JsonRepr> Id<T, U> {
    /// The JSON text of this identifier: that of its value.
    pub open spec fn json_text(&self) -> Seq<char> {
        U::json_text(self.value()@)
    }

    /// Writes the identifier as JSON, exactly as its value alone is
    /// written: no enclosing object, no trace of the tag.
    pub fn to_json(&self) -> (r: String)
        ensures
            r@ == self.json_text(),
    {
        self.inner().to_json()
    }

    /// Reads an identifier from JSON, as its value is read; a failure is
    /// JSON's own error, passed on unchanged.
    pub fn from_json(s: &str) -> (r: Result<Self, serde_json::Error>)
        ensures
            json_decoded::<U>(s@) matches Some(v) ==> (r matches Ok(id) && id.value()@ == v),
            U::json_mismatch(s@) ==> r is Err,
    {
        match U::from_json(s) {
            Ok(v) => Ok(Self::new(v)),
            Err(e) => Err(e),
        }
    }
}

/// Round trip: the JSON text of an identifier reads back as that same
/// identifier's value, and as no other.
pub proof fn lemma_json_round_trip<T, U: JsonRepr>(id: Id<T, U>)
    ensures
        json_decoded::<U>(id.json_text()) == Some(id.value()@),
{
    let s = id.json_text();
    assert(U::json_text(id.value()@) == s);
    let w = json_decoded::<U>(s)->Some_0;
    assert(U::json_text(w) == s);
    U::lemma_json_text_injective(w, id.value()@);
}

} // verus!
