//! Literal values: what a placeholder is bound to, and the typed literals that
//! expressions are built from.

use vstd::prelude::*;
use vstd::std_specs::convert::{IntoSpec, TryIntoSpec};
use vstd::string::*;
use super::alias::{AliasPrefixes, Prefixes, SourceAliasName};
use super::render::{BuildSql, BuildSqlError};
use super::operators::lemma_placeholders_marks;
use super::text::write_str;
use super::types::{
    BoolMono, Expression, Monomial, NonAggregate, NonBool, SqlTypeAny, SqlTypeInt, SqlTypeString,
    SqlTypeUint,
};

verus! {

/// A value bound to a placeholder.
#[derive(Debug, Ord, PartialOrd, Eq, PartialEq, Hash)]
pub enum Value {
    Null,
    String(String),
    Int(i64),
    Uint(u64),
}

/// What a `Value` holds.
pub enum ValueView {
    Null,
    String(Seq<char>),
    Int(i64),
    Uint(u64),
}

impl View for Value {
    type V = ValueView;

    open spec fn view(&self) -> ValueView {
        match self {
            Value::Null => ValueView::Null,
            Value::String(s) => ValueView::String(s@),
            Value::Int(i) => ValueView::Int(*i),
            Value::Uint(u) => ValueView::Uint(*u),
        }
    }
}

impl DeepView for Value {
    type V = ValueView;

    open spec fn deep_view(&self) -> ValueView {
        self@
    }
}

impl Clone for Value {
    fn clone(&self) -> (r: Self)
        ensures
            r == *self,
    {
        match self {
            Value::Null => Value::Null,
            Value::String(s) => Value::String(s.clone()),
            Value::Int(i) => Value::Int(*i),
            Value::Uint(u) => Value::Uint(*u),
        }
    }
}

impl<'a> From<&'a str> for Value {
    fn from(value: &'a str) -> (r: Self)
        ensures
            r@ == ValueView::String(value@),
    {
        Value::String(String::from_str(value))
    }
}

impl<'a> vstd::std_specs::convert::FromSpecImpl<&'a str> for Value {
    /// The string of the value is made from the text; what it is, is stated of
    /// `from` itself.
    open spec fn obeys_from_spec() -> bool {
        false
    }

    open spec fn from_spec(value: &'a str) -> Self {
        arbitrary()
    }
}

impl From<i64> for Value {
    fn from(value: i64) -> (r: Self)
        ensures
            r == Value::Int(value),
    {
        Value::Int(value)
    }
}

impl vstd::std_specs::convert::FromSpecImpl<i64> for Value {
    open spec fn obeys_from_spec() -> bool {
        true
    }

    open spec fn from_spec(value: i64) -> Self {
        Value::Int(value)
    }
}

impl From<u64> for Value {
    fn from(value: u64) -> (r: Self)
        ensures
            r == Value::Uint(value),
    {
        Value::Uint(value)
    }
}

impl vstd::std_specs::convert::FromSpecImpl<u64> for Value {
    open spec fn obeys_from_spec() -> bool {
        true
    }

    open spec fn from_spec(value: u64) -> Self {
        Value::Uint(value)
    }
}

impl<T> From<Option<T>> for Value where T: Into<Value> {
    /// The value of what the option holds, and `Null` where it holds nothing.
    fn from(value: Option<T>) -> (r: Self)
        ensures
            match value {
                Some(x) => call_ensures(T::into, (x,), r) && (T::obeys_into_spec() ==> r
                    == x.into_spec()),
                None => r == Value::Null,
            },
    {
        match value {
            Some(x) => x.into(),
            None => Value::Null,
        }
    }
}

impl<T> vstd::std_specs::convert::FromSpecImpl<Option<T>> for Value where T: Into<Value> {
    open spec fn obeys_from_spec() -> bool {
        T::obeys_into_spec()
    }

    open spec fn from_spec(value: Option<T>) -> Self {
        match value {
            Some(x) => x.into_spec(),
            None => Value::Null,
        }
    }
}

impl From<SqlString> for Value {
    fn from(value: SqlString) -> (r: Self)
        ensures
            r@ == ValueView::String(value.text()),
    {
        Value::String(value.0)
    }
}

impl vstd::std_specs::convert::FromSpecImpl<SqlString> for Value {
    open spec fn obeys_from_spec() -> bool {
        true
    }

    closed spec fn from_spec(value: SqlString) -> Self {
        Value::String(value.0)
    }
}

impl From<SqlInt> for Value {
    fn from(value: SqlInt) -> (r: Self)
        ensures
            r == Value::Int(value.number()),
    {
        Value::Int(value.0)
    }
}

impl vstd::std_specs::convert::FromSpecImpl<SqlInt> for Value {
    open spec fn obeys_from_spec() -> bool {
        true
    }

    open spec fn from_spec(value: SqlInt) -> Self {
        Value::Int(value.number())
    }
}

impl From<SqlUint> for Value {
    fn from(value: SqlUint) -> (r: Self)
        ensures
            r == Value::Uint(value.number()),
    {
        Value::Uint(value.0)
    }
}

impl vstd::std_specs::convert::FromSpecImpl<SqlUint> for Value {
    open spec fn obeys_from_spec() -> bool {
        true
    }

    open spec fn from_spec(value: SqlUint) -> Self {
        Value::Uint(value.number())
    }
}

/// A literal: it renders as one placeholder and binds one value.
pub trait Literal {
    /// The value that the placeholder is bound to.
    spec fn value(&self) -> ValueView;

    fn to_value(&self) -> (v: Value)
        ensures
            v@ == self.value(),
    ;
}

impl Expression for Value {
    type SqlType = SqlTypeAny;

    type Term = Monomial;

    type BoolOperation = BoolMono;

    type Aggregation = NonAggregate;
}

impl Literal for Value {
    open spec fn value(&self) -> ValueView {
        self@
    }

    fn to_value(&self) -> (v: Value) {
        self.clone()
    }
}

impl<'a> Literal for &'a str {
    open spec fn value(&self) -> ValueView {
        ValueView::String(self@)
    }

    fn to_value(&self) -> (v: Value) {
        Value::String(String::from_str(self))
    }
}

impl Literal for i64 {
    open spec fn value(&self) -> ValueView {
        ValueView::Int(*self)
    }

    fn to_value(&self) -> (v: Value) {
        Value::Int(*self)
    }
}

impl Literal for u64 {
    open spec fn value(&self) -> ValueView {
        ValueView::Uint(*self)
    }

    fn to_value(&self) -> (v: Value) {
        Value::Uint(*self)
    }
}

impl<T: Literal> Literal for Option<T> {
    open spec fn value(&self) -> ValueView {
        match self {
            Some(x) => x.value(),
            None => ValueView::Null,
        }
    }

    fn to_value(&self) -> (v: Value) {
        match self {
            Some(x) => x.to_value(),
            None => Value::Null,
        }
    }
}

/// A literal renders as one placeholder and binds its value.
impl<T: Literal> BuildSql for T {
    open spec fn sql_text(&self, prefixes: Prefixes) -> Seq<char> {
        "?"@
    }

    open spec fn sql_params(&self) -> Seq<ValueView> {
        seq![self.value()]
    }

    open spec fn alias_names(&self) -> Seq<SourceAliasName> {
        Seq::empty()
    }

    open spec fn plain_names(&self) -> bool {
        true
    }

    open spec fn infallible(&self) -> bool {
        true
    }

    proof fn lemma_marks(&self, prefixes: Prefixes) {
        reveal_strlit("?");
        lemma_placeholders_marks(1);
    }

    fn note_names(&self, prefixes: &mut AliasPrefixes) {
    }

    fn build_sql_in(
        &self,
        prefixes: &AliasPrefixes,
        buf: &mut Vec<u8>,
        params: &mut Vec<Value>,
    ) -> (r: Result<(), BuildSqlError>) {
        write_str(buf, "?");
        params.push(self.to_value());
        assert(params.deep_view() =~= old(params).deep_view() + self.sql_params());
        Ok(())
    }
}

/// A string literal.
#[derive(Debug, Ord, PartialOrd, Eq, PartialEq, Hash)]
pub struct SqlString(String);

impl SqlString {
    /// The characters of the literal.
    pub closed spec fn text(&self) -> Seq<char> {
        self.0@
    }

    pub fn new(s: &str) -> (r: SqlString)
        ensures
            r.text() == s@,
    {
        SqlString(String::from_str(s))
    }
}

impl<'a> From<&'a str> for SqlString {
    fn from(value: &'a str) -> (r: Self)
        ensures
            r.text() == value@,
    {
        SqlString::new(value)
    }
}

impl<'a> vstd::std_specs::convert::FromSpecImpl<&'a str> for SqlString {
    /// The literal is made from the text; what it is, is stated of `from`
    /// itself.
    open spec fn obeys_from_spec() -> bool {
        false
    }

    closed spec fn from_spec(value: &'a str) -> Self {
        arbitrary()
    }
}

impl From<String> for SqlString {
    fn from(value: String) -> (r: Self)
        ensures
            r.text() == value@,
    {
        SqlString(value)
    }
}

impl vstd::std_specs::convert::FromSpecImpl<String> for SqlString {
    open spec fn obeys_from_spec() -> bool {
        true
    }

    closed spec fn from_spec(value: String) -> Self {
        SqlString(value)
    }
}

impl Clone for SqlString {
    fn clone(&self) -> (r: Self)
        ensures
            r == *self,
    {
        SqlString(self.0.clone())
    }
}

impl Expression for SqlString {
    type SqlType = SqlTypeString;

    type Term = Monomial;

    type BoolOperation = NonBool;

    type Aggregation = NonAggregate;
}

impl Literal for SqlString {
    open spec fn value(&self) -> ValueView {
        ValueView::String(self.text())
    }

    fn to_value(&self) -> (v: Value) {
        Value::String(self.0.clone())
    }
}

/// `<i64 as TryFrom<u64>>::try_from` of std: the same number where it is at
/// most `i64::MAX`, and an error where it is above.
pub assume_specification[ <i64 as core::convert::TryFrom<u64>>::try_from ](v: u64) -> (r: Result<
    i64,
    <i64 as core::convert::TryFrom<u64>>::Error,
>)
    ensures
        r is Ok <==> v <= i64::MAX,
        r matches Ok(i) ==> i == v,
;

/// A signed integer literal.
#[derive(Debug, Clone, Copy, Ord, PartialOrd, Eq, PartialEq, Hash)]
pub struct SqlInt(i64);

impl SqlInt {
    /// The number of the literal.
    pub closed spec fn number(&self) -> i64 {
        self.0
    }

    pub fn new(i: i64) -> (r: SqlInt)
        ensures
            r.number() == i,
    {
        SqlInt(i)
    }

    /// Whether `r` is the outcome of a conversion for a literal: the literal of
    /// the number where the conversion gave one, and the conversion's own error
    /// where it gave none.
    pub open spec fn converted<E>(conversion: Result<i64, E>, r: Result<SqlInt, E>) -> bool {
        match conversion {
            Ok(i) => r matches Ok(literal) && literal.number() == i,
            Err(e) => r == Err::<SqlInt, E>(e),
        }
    }

    /// The literal of a converted number, and the conversion's error where the
    /// number did not fit.
    pub fn from_conversion<E>(conversion: Result<i64, E>) -> (r: Result<SqlInt, E>)
        ensures
            SqlInt::converted(conversion, r),
    {
        match conversion {
            Ok(i) => Ok(SqlInt::new(i)),
            Err(e) => Err(e),
        }
    }

    /// The literal of a number of another type, where the number fits, and the
    /// error of the conversion where it does not: the outcome of what
    /// `value.try_into()` returned.
    pub fn try_from<T: TryInto<i64>>(value: T) -> (r: Result<SqlInt, T::Error>)
        ensures
            exists|conversion: Result<i64, T::Error>|
                #[trigger] call_ensures(T::try_into, (value,), conversion) && SqlInt::converted(
                    conversion,
                    r,
                ),
            T::obeys_try_into_spec() ==> SqlInt::converted(value.try_into_spec(), r),
    {
        SqlInt::from_conversion(value.try_into())
    }
}

impl<T> From<T> for SqlInt where T: Into<i64> {
    fn from(value: T) -> (r: Self)
        ensures
            T::obeys_into_spec() ==> r.number() == value.into_spec(),
    {
        SqlInt(value.into())
    }
}

impl<T> vstd::std_specs::convert::FromSpecImpl<T> for SqlInt where T: Into<i64> {
    open spec fn obeys_from_spec() -> bool {
        T::obeys_into_spec()
    }

    closed spec fn from_spec(value: T) -> Self {
        SqlInt(value.into_spec())
    }
}

impl Expression for SqlInt {
    type SqlType = SqlTypeInt;

    type Term = Monomial;

    type BoolOperation = NonBool;

    type Aggregation = NonAggregate;
}

impl Literal for SqlInt {
    open spec fn value(&self) -> ValueView {
        ValueView::Int(self.number())
    }

    fn to_value(&self) -> (v: Value) {
        Value::Int(self.0)
    }
}

/// An unsigned integer literal.
#[derive(Debug, Clone, Copy, Ord, PartialOrd, Eq, PartialEq, Hash)]
pub struct SqlUint(u64);

impl SqlUint {
    /// The number of the literal.
    pub closed spec fn number(&self) -> u64 {
        self.0
    }

    pub fn new(i: u64) -> (r: SqlUint)
        ensures
            r.number() == i,
    {
        SqlUint(i)
    }

    /// Whether `r` is the outcome of a conversion for a literal: the literal of
    /// the number where the conversion gave one, and the conversion's own error
    /// where it gave none.
    pub open spec fn converted<E>(conversion: Result<u64, E>, r: Result<SqlUint, E>) -> bool {
        match conversion {
            Ok(i) => r matches Ok(literal) && literal.number() == i,
            Err(e) => r == Err::<SqlUint, E>(e),
        }
    }

    /// The literal of a converted number, and the conversion's error where the
    /// number did not fit.
    pub fn from_conversion<E>(conversion: Result<u64, E>) -> (r: Result<SqlUint, E>)
        ensures
            SqlUint::converted(conversion, r),
    {
        match conversion {
            Ok(i) => Ok(SqlUint::new(i)),
            Err(e) => Err(e),
        }
    }

    /// The literal of a number of another type, where the number fits, and the
    /// error of the conversion where it does not: the outcome of what
    /// `value.try_into()` returned.
    pub fn try_from<T: TryInto<u64>>(value: T) -> (r: Result<SqlUint, T::Error>)
        ensures
            exists|conversion: Result<u64, T::Error>|
                #[trigger] call_ensures(T::try_into, (value,), conversion) && SqlUint::converted(
                    conversion,
                    r,
                ),
            T::obeys_try_into_spec() ==> SqlUint::converted(value.try_into_spec(), r),
    {
        SqlUint::from_conversion(value.try_into())
    }
}

impl<T> From<T> for SqlUint where T: Into<u64> {
    fn from(value: T) -> (r: Self)
        ensures
            T::obeys_into_spec() ==> r.number() == value.into_spec(),
    {
        SqlUint(value.into())
    }
}

impl<T> vstd::std_specs::convert::FromSpecImpl<T> for SqlUint where T: Into<u64> {
    open spec fn obeys_from_spec() -> bool {
        T::obeys_into_spec()
    }

    closed spec fn from_spec(value: T) -> Self {
        SqlUint(value.into_spec())
    }
}

impl Expression for SqlUint {
    type SqlType = SqlTypeUint;

    type Term = Monomial;

    type BoolOperation = NonBool;

    type Aggregation = NonAggregate;
}

impl Literal for SqlUint {
    open spec fn value(&self) -> ValueView {
        ValueView::Uint(self.number())
    }

    fn to_value(&self) -> (v: Value) {
        Value::Uint(self.0)
    }
}

} // verus!
