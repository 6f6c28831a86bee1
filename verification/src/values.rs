use vstd::prelude::*;

use crate::date::{Clock, Date};

verus! {

/// A string known to hold at least one character. Immutable once built.
#[derive(Debug)]
pub struct NonEmptyString {
    inner: String,
}

impl View for NonEmptyString {
    type V = Seq<char>;

    closed spec fn view(&self) -> Seq<char> {
        self.inner@
    }
}

#[derive(Debug, PartialEq, Eq)]
pub enum NonEmptyStringValidationError {
    EmptyValue,
}

impl NonEmptyString {
    /// Accepts exactly the non-empty strings and keeps the text as given.
    pub fn new(input: String) -> (r: Result<NonEmptyString, NonEmptyStringValidationError>)
        ensures
            r is Ok <==> input@.len() > 0,
            r matches Ok(t) ==> t@ == input@ && t.wf(),
            r matches Err(e) ==> e == NonEmptyStringValidationError::EmptyValue,
    {
        if input.as_str().is_empty() {
            Err(NonEmptyStringValidationError::EmptyValue)
        } else {
            Ok(NonEmptyString { inner: input })
        }
    }

    /// Construction that cannot fail, for text already known non-empty.
    pub fn from_nonempty(input: String) -> (t: NonEmptyString)
        requires
            input@.len() > 0,
        ensures
            t@ == input@,
            t.wf(),
    {
        NonEmptyString { inner: input }
    }

    /// The wrapped text; non-empty whenever the invariant holds.
    pub fn as_str(&self) -> (r: &str)
        ensures
            r@ == self@,
    {
        self.inner.as_str()
    }

    /// The invariant every constructed value satisfies.
    pub open spec fn wf(&self) -> bool {
        self@.len() > 0
    }
}

impl Clone for NonEmptyString {
    fn clone(&self) -> (r: Self)
        ensures
            r == *self,
    {
        NonEmptyString { inner: self.inner.clone() }
    }
}

/// An address string accepted for the email channel; the only format rule
/// in scope is that it is non-empty.
#[derive(Debug)]
pub struct Email {
    inner: String,
}

impl View for Email {
    type V = Seq<char>;

    closed spec fn view(&self) -> Seq<char> {
        self.inner@
    }
}

#[derive(Debug, PartialEq, Eq)]
pub enum EmailValidationError {
    InvalidFormat,
}

impl Email {
    /// Accepts exactly the non-empty strings and keeps the text as given.
    pub fn new(input: String) -> (r: Result<Email, EmailValidationError>)
        ensures
            r is Ok <==> input@.len() > 0,
            r matches Ok(e) ==> e@ == input@ && e.wf(),
            r matches Err(e) ==> e == EmailValidationError::InvalidFormat,
    {
        if input.as_str().is_empty() {
            Err(EmailValidationError::InvalidFormat)
        } else {
            Ok(Email { inner: input })
        }
    }

    /// The wrapped address text.
    pub fn as_str(&self) -> (r: &str)
        ensures
            r@ == self@,
    {
        self.inner.as_str()
    }

    pub open spec fn wf(&self) -> bool {
        self@.len() > 0
    }
}

impl Clone for Email {
    fn clone(&self) -> (r: Self)
        ensures
            r == *self,
    {
        Email { inner: self.inner.clone() }
    }
}

/// A calendar date validated to lie on or before "today" at construction.
#[derive(Clone, Copy, Debug)]
pub struct BirthDate {
    inner: Date,
}

impl View for BirthDate {
    type V = Date;

    closed spec fn view(&self) -> Date {
        self.inner
    }
}

#[derive(Debug, PartialEq, Eq)]
pub enum BirthDateValidationError {
    FutureDate,
}

impl BirthDate {
    /// Accepts exactly the dates that do not lie strictly after `today`;
    /// `today` is handed in by the caller's clock, never read ambiently.
    pub fn new(input: Date, today: Date) -> (r: Result<BirthDate, BirthDateValidationError>)
        ensures
            r is Ok <==> input.le(today),
            r matches Ok(b) ==> b@ == input,
            r matches Err(e) ==> e == BirthDateValidationError::FutureDate,
    {
        if input.is_on_or_before(&today) {
            Ok(BirthDate { inner: input })
        } else {
            Err(BirthDateValidationError::FutureDate)
        }
    }

    /// Validate against the injected clock's current date. What the
    /// clock answers is outside this crate's control, so the exact
    /// acceptance contract lives in `new`, which this call hands the
    /// current date to.
    pub fn new_from_clock<C: Clock>(input: Date, clock: &C) -> (r: Result<
        BirthDate,
        BirthDateValidationError,
    >)
        requires
            clock.inv(),
        ensures
            r matches Ok(b) ==> b@ == input,
            r matches Err(e) ==> e == BirthDateValidationError::FutureDate,
    {
        let today = clock.now();
        BirthDate::new(input, today)
    }

    /// The validated date.
    pub fn date(&self) -> (d: Date)
        ensures
            d == self@,
    {
        self.inner
    }
}

} // verus!
