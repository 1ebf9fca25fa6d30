//! One page of search results, and how it is read out of a JSON document.

use crate::error::{Failure, SearchError};
use crate::json::{elements, get, member, parse, parsed, string, unsigned};
use crate::text::{decimal, push_decimal};
use vstd::prelude::*;

verus! {

/// The addresses under which the server offers an image.
#[derive(Debug, Clone, PartialEq, Eq)]
pub struct Representations {
    /// The address of the image in full resolution.
    pub full: String,
}

/// One search result.
#[derive(Debug, Clone, PartialEq, Eq)]
pub struct Image {
    pub representations: Representations,
}

/// One page of search results, as the server sends it.
#[derive(Debug, Clone, PartialEq, Eq)]
pub struct SearchImages {
    /// The number of images that match the search, on all pages together.
    pub total: usize,
    /// The images of this page, in the server's order.
    pub images: Vec<Image>,
}

/// An image is known by the address of its full resolution.
impl View for Image {
    type V = Seq<char>;

    open spec fn view(&self) -> Seq<char> {
        self.representations.full@
    }
}

/// A `SearchImages` as plain values: the total, and the address of each image.
pub struct Envelope {
    pub total: nat,
    pub images: Seq<Seq<char>>,
}

impl View for SearchImages {
    type V = Envelope;

    open spec fn view(&self) -> Envelope {
        Envelope { total: self.total as nat, images: self.images@.map_values(|image: Image| image@) }
    }
}

/// The path of the element at `index` of `images`.
pub open spec fn item_path(index: nat) -> Seq<char> {
    "images["@ + decimal(index) + "]"@
}

/// The path of the `representations` of the image at `index`.
pub open spec fn representations_path(index: nat) -> Seq<char> {
    item_path(index) + ".representations"@
}

/// The path of the full-resolution address of the image at `index`.
pub open spec fn full_path(index: nat) -> Seq<char> {
    representations_path(index) + ".full"@
}

/// The failure of a document in which the field at `path` is missing or holds
/// a value of the wrong type.
pub open spec fn malformed<T>(path: Seq<char>) -> Result<T, Failure> {
    Err(Failure::MalformedResponse(path))
}

/// The total that a document reports: its member `total`, which must be an
/// integer that fits in `usize`.
pub open spec fn total_of(document: serde_json::Value) -> Result<nat, Failure> {
    match member(document, "total"@) {
        Some(field) => match unsigned(field) {
            Some(n) => if n <= usize::MAX {
                Ok(n as nat)
            } else {
                malformed("total"@)
            },
            None => malformed("total"@),
        },
        None => malformed("total"@),
    }
}

/// The address of the image that is element `index` of `images`: the string
/// under `representations` and then `full`.
pub open spec fn image_of(item: serde_json::Value, index: nat) -> Result<Seq<char>, Failure> {
    match member(item, "representations"@) {
        Some(representations) => match member(representations, "full"@) {
            Some(field) => match string(field) {
                Some(address) => Ok(address),
                None => malformed(full_path(index)),
            },
            None => malformed(full_path(index)),
        },
        None => malformed(representations_path(index)),
    }
}

/// The addresses of a sequence of elements, in order; where an element
/// fails, the failure of the first that does.
pub open spec fn images_of(items: Seq<serde_json::Value>) -> Result<Seq<Seq<char>>, Failure>
    decreases items.len(),
{
    if items.len() == 0 {
        Ok(Seq::empty())
    } else {
        match images_of(items.drop_last()) {
            Ok(front) => match image_of(items.last(), (items.len() - 1) as nat) {
                Ok(address) => Ok(front.push(address)),
                Err(failure) => Err(failure),
            },
            Err(failure) => Err(failure),
        }
    }
}

/// The page that a document holds. The document must be an object with an
/// integer `total` and an array `images`, each element of which holds a string
/// under `representations.full`; what else it holds is of no account. The
/// fields are read in this order, and the first that fails is reported.
pub open spec fn envelope_of(document: serde_json::Value) -> Result<Envelope, Failure> {
    match total_of(document) {
        Ok(total) => match member(document, "images"@) {
            Some(field) => match elements(field) {
                Some(items) => match images_of(items) {
                    Ok(images) => Ok(Envelope { total, images }),
                    Err(failure) => Err(failure),
                },
                None => malformed("images"@),
            },
            None => malformed("images"@),
        },
        Err(failure) => Err(failure),
    }
}

/// The page that the text of a reply holds: that of the document it spells
/// out, and a failure at the parser's path where it is not JSON.
pub open spec fn envelope_of_text(text: Seq<char>) -> Result<Envelope, Failure> {
    match parsed(text) {
        Ok(document) => envelope_of(document),
        Err(path) => malformed(path),
    }
}

/// A result of decoding as plain values.
pub open spec fn decoded(r: Result<SearchImages, SearchError>) -> Result<Envelope, Failure> {
    match r {
        Ok(page) => Ok(page@),
        Err(error) => Err(error@),
    }
}

/// The error of a field that is missing or of the wrong type.
fn malformed_at(path: &str) -> (error: SearchError)
    ensures
        error@ == Failure::MalformedResponse(path@),
{
    SearchError::MalformedResponse(String::from_str(path))
}

/// The error of a field of the image at `index`: its `representations`, or,
/// with `leaf`, the address under them.
fn malformed_item(index: usize, leaf: bool) -> (error: SearchError)
    ensures
        error@ == Failure::MalformedResponse(
            if leaf {
                full_path(index as nat)
            } else {
                representations_path(index as nat)
            },
        ),
{
    let mut path = String::from_str("images[");
    push_decimal(&mut path, index as u64);
    path.append("]");
    path.append(".representations");
    if leaf {
        path.append(".full");
    }
    SearchError::MalformedResponse(path)
}

impl Image {
    /// The image whose full resolution lies at `address`.
    pub fn new(address: String) -> (image: Image)
        ensures
            image@ == address@,
    {
        Image { representations: Representations { full: address } }
    }

    /// Reads an image out of element `index` of the array `images`.
    pub fn from_document(item: &serde_json::Value, index: usize) -> (r: Result<Image, SearchError>)
        ensures
            match r {
                Ok(image) => image_of(*item, index as nat) == Ok::<Seq<char>, Failure>(image@),
                Err(error) => image_of(*item, index as nat) == Err::<Seq<char>, Failure>(error@),
            },
    {
        match get(item, "representations") {
            Some(representations) => match get(representations, "full") {
                Some(field) => match field.as_str() {
                    Some(address) => Ok(Image::new(String::from_str(address))),
                    None => Err(malformed_item(index, true)),
                },
                None => Err(malformed_item(index, true)),
            },
            None => Err(malformed_item(index, false)),
        }
    }
}

impl SearchImages {
    /// Reads a page of results out of a parsed document.
    pub fn from_document(document: &serde_json::Value) -> (r: Result<SearchImages, SearchError>)
        ensures
            decoded(r) == envelope_of(*document),
    {
        let total: usize = match get(document, "total") {
            Some(field) => match field.as_u64() {
                Some(n) => if n <= usize::MAX as u64 {
                    n as usize
                } else {
                    return Err(malformed_at("total"));
                },
                None => {
                    return Err(malformed_at("total"));
                },
            },
            None => {
                return Err(malformed_at("total"));
            },
        };
        let items = match get(document, "images") {
            Some(field) => match field.as_array() {
                Some(items) => items,
                None => {
                    return Err(malformed_at("images"));
                },
            },
            None => {
                return Err(malformed_at("images"));
            },
        };
        let mut images: Vec<Image> = Vec::new();
        let mut index: usize = 0;
        assert(items@.take(0).len() == 0);
        assert(images@.map_values(|image: Image| image@) =~= Seq::empty());
        while index < items.len()
            invariant
                index <= items.len(),
                total_of(*document) == Ok::<nat, Failure>(total as nat),
                member(*document, "images"@) matches Some(field) && elements(field) == Some(
                    items@,
                ),
                images_of(items@.take(index as int)) == Ok::<Seq<Seq<char>>, Failure>(
                    images@.map_values(|image: Image| image@),
                ),
            decreases items.len() - index,
        {
            let ghost before = items@.take(index as int);
            let ghost now = items@.take(index + 1);
            assert(now.drop_last() =~= before);
            assert(now.last() == items@[index as int]);
            match Image::from_document(&items[index], index) {
                Ok(image) => {
                    let ghost front = images@.map_values(|image: Image| image@);
                    let ghost address = image@;
                    images.push(image);
                    assert(images@.map_values(|image: Image| image@) =~= front.push(address));
                },
                Err(error) => {
                    proof {
                        lemma_first_failure(items@, index as int);
                    }
                    return Err(error);
                },
            }
            index += 1;
        }
        assert(items@.take(index as int) =~= items@);
        Ok(SearchImages { total, images })
    }

    /// Reads a page of results out of the text of a reply.
    pub fn from_json(text: &str) -> (r: Result<SearchImages, SearchError>)
        ensures
            decoded(r) == envelope_of_text(text@),
    {
        match parse(text) {
            Ok(document) => SearchImages::from_document(&document),
            Err(path) => Err(SearchError::MalformedResponse(path)),
        }
    }
}

/// Once the elements up to `at` fail, so does every longer run of elements,
/// and with the same failure.
proof fn lemma_first_failure(items: Seq<serde_json::Value>, at: int)
    requires
        0 <= at < items.len(),
        images_of(items.take(at + 1)) is Err,
    ensures
        images_of(items) == images_of(items.take(at + 1)),
    decreases items.len() - at,
{
    if at + 1 == items.len() {
        assert(items.take(at + 1) =~= items);
    } else {
        let longer = items.take(at + 2);
        assert(longer.drop_last() =~= items.take(at + 1));
        lemma_first_failure(items, at + 1);
    }
}

} // verus!
