use vstd::prelude::*;
use vstd::string::StrSliceExecFns;

use crate::domain::error::DomainError;

verus! {

/// Length limit, in characters, shared by every text value object.
pub const MAX_TEXT_LEN: usize = 32;

/// A book title: at most 32 characters, counted as Unicode scalar
/// values rather than bytes.
#[derive(Debug)]
pub struct BookTitle(String);

impl View for BookTitle {
    type V = Seq<char>;

    closed spec fn view(&self) -> Seq<char> {
        self.0@
    }
}

impl BookTitle {
    /// The length constraint every constructed title satisfies.
    pub open spec fn inv(&self) -> bool {
        self@.len() <= MAX_TEXT_LEN
    }

    /// Accepts a title of at most 32 characters and returns it
    /// unchanged; anything longer is rejected as invalid.
    pub fn new(title: String) -> (r: Result<BookTitle, DomainError>)
        ensures
            r is Ok <==> title@.len() <= MAX_TEXT_LEN,
            r matches Ok(t) ==> t@ == title@ && t.inv(),
            r matches Err(e) ==> e is InvalidFormat,
    {
        if title.as_str().unicode_len() > MAX_TEXT_LEN {
            return Err(DomainError::InvalidFormat("Title must be 32 chars or less".to_owned()));
        }
        Ok(BookTitle(title))
    }

    /// The wrapped text, exactly as it was accepted.
    pub fn value(&self) -> (r: &str)
        ensures
            r@ == self@,
    {
        self.0.as_str()
    }

    /// An owned copy of the wrapped text.
    pub fn clone_value(&self) -> (r: String)
        ensures
            r@ == self@,
    {
        self.0.clone()
    }
}

impl Clone for BookTitle {
    /// An exact copy of the value object.
    fn clone(&self) -> (r: Self)
        ensures
            r == *self,
    {
        BookTitle(self.0.clone())
    }
}

/// A book author: at most 32 characters.
#[derive(Debug)]
pub struct BookAuthor(String);

impl View for BookAuthor {
    type V = Seq<char>;

    closed spec fn view(&self) -> Seq<char> {
        self.0@
    }
}

impl BookAuthor {
    /// The length constraint every constructed author satisfies.
    pub open spec fn inv(&self) -> bool {
        self@.len() <= MAX_TEXT_LEN
    }

    /// Accepts an author of at most 32 characters and returns it
    /// unchanged; anything longer is rejected as invalid.
    pub fn new(author: String) -> (r: Result<BookAuthor, DomainError>)
        ensures
            r is Ok <==> author@.len() <= MAX_TEXT_LEN,
            r matches Ok(a) ==> a@ == author@ && a.inv(),
            r matches Err(e) ==> e is InvalidFormat,
    {
        if author.as_str().unicode_len() > MAX_TEXT_LEN {
            return Err(DomainError::InvalidFormat("Author must be 32 chars or less".to_owned()));
        }
        Ok(BookAuthor(author))
    }

    /// The wrapped text, exactly as it was accepted.
    pub fn value(&self) -> (r: &str)
        ensures
            r@ == self@,
    {
        self.0.as_str()
    }

    /// An owned copy of the wrapped text.
    pub fn clone_value(&self) -> (r: String)
        ensures
            r@ == self@,
    {
        self.0.clone()
    }
}

impl Clone for BookAuthor {
    /// An exact copy of the value object.
    fn clone(&self) -> (r: Self)
        ensures
            r == *self,
    {
        BookAuthor(self.0.clone())
    }
}

/// The physical form of a book.
#[derive(Clone, Copy, PartialEq, Eq, Structural, Debug)]
pub enum BookFormat {
    Real,
    EBook,
}

impl BookFormat {
    /// The fixed name of each format.
    pub fn as_str(&self) -> (r: &str)
        ensures
            *self is Real ==> r@ == "Real"@,
            *self is EBook ==> r@ == "EBook"@,
    {
        match self {
            BookFormat::Real => "Real",
            BookFormat::EBook => "EBook",
        }
    }
}

impl Default for BookFormat {
    /// A book is a physical one unless stated otherwise.
    fn default() -> (r: Self)
        ensures
            r is Real,
    {
        BookFormat::Real
    }
}

/// A book price: a non-negative amount.
#[derive(Clone, Copy, PartialEq, Eq, Structural, Debug)]
pub struct BookPrice(i32);

impl View for BookPrice {
    type V = i32;

    closed spec fn view(&self) -> i32 {
        self.0
    }
}

impl BookPrice {
    /// The range constraint every constructed price satisfies.
    pub open spec fn inv(&self) -> bool {
        self@ >= 0
    }

    /// Accepts a price of zero or more and returns it unchanged; a
    /// negative price is rejected as invalid.
    pub fn new(price: i32) -> (r: Result<BookPrice, DomainError>)
        ensures
            r is Ok <==> price >= 0,
            r matches Ok(p) ==> p@ == price && p.inv(),
            r matches Err(e) ==> e is InvalidFormat,
    {
        if price < 0 {
            return Err(DomainError::InvalidFormat("Price must be 0 or more".to_owned()));
        }
        Ok(BookPrice(price))
    }

    /// The wrapped amount, exactly as it was accepted.
    pub fn value(&self) -> (r: i32)
        ensures
            r == self@,
    {
        self.0
    }
}

/// A publisher name: at most 32 characters.
#[derive(Debug)]
pub struct PublisherName(String);

impl View for PublisherName {
    type V = Seq<char>;

    closed spec fn view(&self) -> Seq<char> {
        self.0@
    }
}

impl PublisherName {
    /// The length constraint every constructed name satisfies.
    pub open spec fn inv(&self) -> bool {
        self@.len() <= MAX_TEXT_LEN
    }

    /// Accepts a name of at most 32 characters and returns it
    /// unchanged; anything longer is rejected as invalid.
    pub fn new(name: String) -> (r: Result<PublisherName, DomainError>)
        ensures
            r is Ok <==> name@.len() <= MAX_TEXT_LEN,
            r matches Ok(n) ==> n@ == name@ && n.inv(),
            r matches Err(e) ==> e is InvalidFormat,
    {
        if name.as_str().unicode_len() > MAX_TEXT_LEN {
            return Err(DomainError::InvalidFormat("Name must be 32 chars or less".to_owned()));
        }
        Ok(PublisherName(name))
    }

    /// The wrapped text, exactly as it was accepted.
    pub fn value(&self) -> (r: &str)
        ensures
            r@ == self@,
    {
        self.0.as_str()
    }

    /// An owned copy of the wrapped text.
    pub fn clone_value(&self) -> (r: String)
        ensures
            r@ == self@,
    {
        self.0.clone()
    }

    /// Whether two names consist of the same characters.
    pub fn eq_value(&self, other: &Self) -> (r: bool)
        ensures
            r == (self@ == other@),
    {
        self.0 == other.0
    }
}

impl Clone for PublisherName {
    /// An exact copy of the value object.
    fn clone(&self) -> (r: Self)
        ensures
            r == *self,
    {
        PublisherName(self.0.clone())
    }
}

/// A shop name: at most 32 characters.
#[derive(Debug)]
pub struct ShopName(String);

impl View for ShopName {
    type V = Seq<char>;

    closed spec fn view(&self) -> Seq<char> {
        self.0@
    }
}

impl ShopName {
    /// The length constraint every constructed name satisfies.
    pub open spec fn inv(&self) -> bool {
        self@.len() <= MAX_TEXT_LEN
    }

    /// Accepts a name of at most 32 characters and returns it
    /// unchanged; anything longer is rejected as invalid.
    pub fn new(name: String) -> (r: Result<ShopName, DomainError>)
        ensures
            r is Ok <==> name@.len() <= MAX_TEXT_LEN,
            r matches Ok(n) ==> n@ == name@ && n.inv(),
            r matches Err(e) ==> e is InvalidFormat,
    {
        if name.as_str().unicode_len() > MAX_TEXT_LEN {
            return Err(DomainError::InvalidFormat("Name must be 32 chars or less".to_owned()));
        }
        Ok(ShopName(name))
    }

    /// The wrapped text, exactly as it was accepted.
    pub fn value(&self) -> (r: &str)
        ensures
            r@ == self@,
    {
        self.0.as_str()
    }

    /// An owned copy of the wrapped text.
    pub fn clone_value(&self) -> (r: String)
        ensures
            r@ == self@,
    {
        self.0.clone()
    }

    /// Whether two names consist of the same characters.
    pub fn eq_value(&self, other: &Self) -> (r: bool)
        ensures
            r == (self@ == other@),
    {
        self.0 == other.0
    }
}

impl Clone for ShopName {
    /// An exact copy of the value object.
    fn clone(&self) -> (r: Self)
        ensures
            r == *self,
    {
        ShopName(self.0.clone())
    }
}

} // verus!
