//! The region document: what is saved of a card's regions, and how it is
//! read back.
//!
//! A document is a JSON object with the card size in effect when it was
//! saved and the regions in order:
//!
//! ```text
//! { "image_size": [width, height],
//!   "regions": [ { "name": "...", "x": 0, "y": 0, "width": 1, "height": 1 }, ... ] }
//! ```
//!
//! Documents of an earlier shape, a bare array of the same region objects,
//! are still read. Reading is all or nothing: one region that lacks a member,
//! or holds a member of the wrong kind, rejects the whole text.

use crate::geometry::{CardSize, Rect};
use crate::json::{
    json_field, json_items, json_model, json_models, json_members, json_parsed, json_printed,
    json_text, json_u64, keys_distinct, lemma_member_position, member_position, parse_value, print_value,
    value_as_array, value_as_str, value_as_u64, value_field, value_of_array, value_of_members,
    value_of_string, value_of_u64, Json, JsonNumber,
};
use crate::region::{region_views, Region, RegionStore, RegionView};
use vstd::prelude::*;

verus! {

/// Why a text was not accepted as a region document.
#[derive(Clone, Copy, Debug, PartialEq, Eq, Structural)]
pub enum ParseError {
    /// The text is neither a document nor a bare list of regions.
    UnknownFormat,
}

/// A region document: the card size in effect when it was saved, as width
/// and height, and the regions in order.
#[derive(Debug, PartialEq, Eq)]
pub struct RegionDocument {
    pub image_size: (usize, usize),
    pub regions: Vec<Region>,
}

/// What a region document is.
pub struct DocumentView {
    pub image_size: (usize, usize),
    pub regions: Seq<RegionView>,
}

impl View for RegionDocument {
    type V = DocumentView;

    open spec fn view(&self) -> DocumentView {
        DocumentView { image_size: self.image_size, regions: region_views(self.regions@) }
    }
}

/// What was read from a text: a document, or the bare list of regions of the
/// earlier shape, which records no card size.
#[derive(Debug, PartialEq, Eq)]
pub enum Loaded {
    Document(RegionDocument),
    Legacy(Vec<Region>),
}

/// What a `Loaded` is.
pub enum LoadedView {
    Document(DocumentView),
    Legacy(Seq<RegionView>),
}

impl View for Loaded {
    type V = LoadedView;

    open spec fn view(&self) -> LoadedView {
        match self {
            Loaded::Document(document) => LoadedView::Document(document@),
            Loaded::Legacy(regions) => LoadedView::Legacy(region_views(regions@)),
        }
    }
}

/// A JSON number that holds an unsigned integer.
pub open spec fn json_number(n: int) -> Json {
    Json::Number(JsonNumber::Unsigned(n as u64))
}

/// The JSON object that stands for a region.
pub open spec fn region_json(region: RegionView) -> Json {
    Json::Object(
        seq![
            ("name"@, Json::Text(region.name)),
            ("x"@, json_number(region.rect.x as int)),
            ("y"@, json_number(region.rect.y as int)),
            ("width"@, json_number(region.rect.width as int)),
            ("height"@, json_number(region.rect.height as int)),
        ],
    )
}

/// The JSON array that stands for a list of regions.
pub open spec fn regions_json(regions: Seq<RegionView>) -> Json {
    Json::Array(regions.map_values(|r: RegionView| region_json(r)))
}

/// The JSON object that stands for a document.
pub open spec fn document_json(document: DocumentView) -> Json {
    Json::Object(
        seq![
            (
                "image_size"@,
                Json::Array(
                    seq![
                        json_number(document.image_size.0 as int),
                        json_number(document.image_size.1 as int),
                    ],
                ),
            ),
            ("regions"@, regions_json(document.regions)),
        ],
    )
}

/// The member of an object with the given key, as a pixel count: an unsigned
/// integer that fits `usize`.
pub open spec fn json_pixels(value: Json, key: Seq<char>) -> Option<usize> {
    match json_field(value, key) {
        Some(member) => match json_u64(member) {
            Some(n) => if n <= usize::MAX {
                Some(n as usize)
            } else {
                None
            },
            None => None,
        },
        None => None,
    }
}

/// The region that a JSON value stands for: an object with a string `name`
/// and pixel counts `x`, `y`, `width` and `height`. Other members are passed
/// over.
pub open spec fn region_of_json(value: Json) -> Option<RegionView> {
    match json_field(value, "name"@) {
        Some(member) => match (
            json_text(member),
            json_pixels(value, "x"@),
            json_pixels(value, "y"@),
            json_pixels(value, "width"@),
            json_pixels(value, "height"@),
        ) {
            (Some(name), Some(x), Some(y), Some(width), Some(height)) => Some(
                RegionView { name, rect: Rect { x, y, width, height } },
            ),
            _ => None,
        },
        None => None,
    }
}

/// The regions that a JSON value stands for: an array whose every item
/// stands for a region.
pub open spec fn regions_of_json(value: Json) -> Option<Seq<RegionView>> {
    match json_items(value) {
        Some(items) => if forall|i: int|
            0 <= i < items.len() ==> (#[trigger] region_of_json(items[i])) is Some {
            Some(items.map_values(|item: Json| region_of_json(item)->0))
        } else {
            None
        },
        None => None,
    }
}

/// The card size that a JSON value stands for: an array of exactly two
/// pixel counts, unsigned integers that fit `usize`.
pub open spec fn image_size_of_json(value: Json) -> Option<(usize, usize)> {
    match json_items(value) {
        Some(items) => if items.len() == 2 {
            match (json_u64(items[0]), json_u64(items[1])) {
                (Some(width), Some(height)) => if width <= usize::MAX && height <= usize::MAX {
                    Some((width as usize, height as usize))
                } else {
                    None
                },
                _ => None,
            }
        } else {
            None
        },
        None => None,
    }
}

/// The document that a JSON value stands for: an object with members
/// `image_size` and `regions`.
pub open spec fn wrapped_of_json(value: Json) -> Option<DocumentView> {
    match (json_field(value, "image_size"@), json_field(value, "regions"@)) {
        (Some(size), Some(list)) => match (image_size_of_json(size), regions_of_json(list)) {
            (Some(image_size), Some(regions)) => Some(DocumentView { image_size, regions }),
            _ => None,
        },
        _ => None,
    }
}

/// What a JSON value is read as: a document where it has that shape,
/// otherwise a bare list of regions where it has that shape, otherwise
/// nothing.
pub open spec fn loaded_of_json(value: Json) -> Option<LoadedView> {
    match wrapped_of_json(value) {
        Some(document) => Some(LoadedView::Document(document)),
        None => match regions_of_json(value) {
            Some(regions) => Some(LoadedView::Legacy(regions)),
            None => None,
        },
    }
}

/// What a text is read as: what its JSON value is read as, where it is JSON.
pub open spec fn loaded_of_text(text: Seq<u8>) -> Option<LoadedView> {
    match json_parsed(text) {
        Some(value) => loaded_of_json(value),
        None => None,
    }
}

/// The five keys of a region object differ from one another, and so do the
/// two keys of a document.
proof fn lemma_keys_differ()
    ensures
        "name"@ != "x"@,
        "name"@ != "y"@,
        "name"@ != "width"@,
        "name"@ != "height"@,
        "x"@ != "y"@,
        "x"@ != "width"@,
        "x"@ != "height"@,
        "y"@ != "width"@,
        "y"@ != "height"@,
        "width"@ != "height"@,
        "image_size"@ != "regions"@,
{
    reveal_strlit("name");
    reveal_strlit("x");
    reveal_strlit("y");
    reveal_strlit("width");
    reveal_strlit("height");
    reveal_strlit("image_size");
    reveal_strlit("regions");
    assert("x"@[0] == 'x');
    assert("y"@[0] == 'y');
    assert("width"@.len() == 5);
    assert("height"@.len() == 6);
    assert("name"@.len() == 4);
    assert("image_size"@.len() == 10);
    assert("regions"@.len() == 7);
}

/// Each member of the object that stands for a region is found under its key.
proof fn lemma_region_json_fields(region: RegionView)
    ensures
        json_field(region_json(region), "name"@) == Some(Json::Text(region.name)),
        json_field(region_json(region), "x"@) == Some(json_number(region.rect.x as int)),
        json_field(region_json(region), "y"@) == Some(json_number(region.rect.y as int)),
        json_field(region_json(region), "width"@) == Some(json_number(region.rect.width as int)),
        json_field(region_json(region), "height"@) == Some(
            json_number(region.rect.height as int),
        ),
{
    lemma_keys_differ();
    let members = region_json(region)->Object_0;
    lemma_member_position(members, "name"@);
    lemma_member_position(members, "x"@);
    lemma_member_position(members, "y"@);
    lemma_member_position(members, "width"@);
    lemma_member_position(members, "height"@);
    assert(members[0].0 == "name"@);
    assert(members[1].0 == "x"@);
    assert(members[2].0 == "y"@);
    assert(members[3].0 == "width"@);
    assert(members[4].0 == "height"@);
}

/// A region is read back from the object that stands for it.
pub proof fn lemma_region_round_trip(region: RegionView)
    ensures
        region_of_json(region_json(region)) == Some(region),
{
    lemma_region_json_fields(region);
}

/// A list of regions is read back, in order, from the array that stands for
/// it.
pub proof fn lemma_regions_round_trip(regions: Seq<RegionView>)
    ensures
        regions_of_json(regions_json(regions)) == Some(regions),
{
    let items = regions.map_values(|r: RegionView| region_json(r));
    assert forall|i: int| 0 <= i < items.len() implies (#[trigger] region_of_json(items[i]))
        == Some(regions[i]) by {
        lemma_region_round_trip(regions[i]);
    }
    assert(items.map_values(|item: Json| region_of_json(item)->0) =~= regions);
}

/// Reading is the inverse of writing: the JSON value that stands for a
/// document is read as that document, its regions in order and every field
/// exact.
pub proof fn lemma_document_round_trip(document: DocumentView)
    ensures
        loaded_of_json(document_json(document)) == Some(LoadedView::Document(document)),
{
    lemma_keys_differ();
    lemma_regions_round_trip(document.regions);
    let members = document_json(document)->Object_0;
    lemma_member_position(members, "image_size"@);
    lemma_member_position(members, "regions"@);
    assert(members[0].0 == "image_size"@);
    assert(members[1].0 == "regions"@);
}

/// A bare array of region objects is read as those regions, in order, and
/// as no document: it carries no card size.
pub proof fn lemma_legacy_round_trip(regions: Seq<RegionView>)
    ensures
        loaded_of_json(regions_json(regions)) == Some(LoadedView::Legacy(regions)),
{
    lemma_regions_round_trip(regions);
}

/// One item that stands for no region rejects the whole value, whether the
/// value is a document or a bare list.
pub proof fn lemma_malformed_region_rejects(value: Json, i: int)
    requires
        match json_field(value, "regions"@) {
            Some(list) => json_items(list) matches Some(items) && 0 <= i < items.len()
                && region_of_json(items[i]) is None,
            None => json_items(value) matches Some(items) && 0 <= i < items.len()
                && region_of_json(items[i]) is None,
        },
    ensures
        loaded_of_json(value) is None,
{
}

/// An object stands for no region where it lacks one of the five members,
/// where `name` is no string, or where a pixel count is no unsigned integer:
/// a negative number, a fraction, a string.
pub proof fn lemma_region_needs_every_member(value: Json, key: Seq<char>)
    requires
        key == "name"@ || key == "x"@ || key == "y"@ || key == "width"@ || key == "height"@,
        match json_field(value, key) {
            Some(member) => if key == "name"@ {
                json_text(member) is None
            } else {
                json_u64(member) is None
            },
            None => true,
        },
    ensures
        region_of_json(value) is None,
{
    lemma_keys_differ();
}

/// The two shapes in which a list of JSON items is handed in: bare, and as
/// the `regions` member of a document with some `image_size`.
pub open spec fn bare_list(items: Seq<Json>) -> Json {
    Json::Array(items)
}

/// The document object with the given `image_size` member and items.
pub open spec fn wrapped_list(image_size: Json, items: Seq<Json>) -> Json {
    Json::Object(seq![("image_size"@, image_size), ("regions"@, Json::Array(items))])
}

/// A list with one item that stands for no region is rejected in both
/// shapes, whatever stands beside that item and whatever the card size.
pub proof fn lemma_bad_item_rejects_both_shapes(image_size: Json, items: Seq<Json>, i: int)
    requires
        0 <= i < items.len(),
        region_of_json(items[i]) is None,
    ensures
        loaded_of_json(bare_list(items)) is None,
        loaded_of_json(wrapped_list(image_size, items)) is None,
{
    lemma_keys_differ();
    let members = wrapped_list(image_size, items)->Object_0;
    lemma_member_position(members, "image_size"@);
    lemma_member_position(members, "regions"@);
    assert(members[0].0 == "image_size"@);
    assert(members[1].0 == "regions"@);
}

/// A region object whose `width` is a number below zero stands for no
/// region, and a text that holds such an object among its regions is
/// rejected whole, as a document and as a bare list.
pub proof fn lemma_negative_width_rejects(
    name: Seq<char>,
    x: u64,
    y: u64,
    width: i64,
    height: u64,
    image_size: Json,
    before: Seq<Json>,
    after: Seq<Json>,
)
    requires
        width < 0,
    ensures
        ({
            let bad = Json::Object(
                seq![
                    ("name"@, Json::Text(name)),
                    ("x"@, json_number(x as int)),
                    ("y"@, json_number(y as int)),
                    ("width"@, Json::Number(JsonNumber::Negative(width))),
                    ("height"@, json_number(height as int)),
                ],
            );
            let items = before.push(bad) + after;
            &&& region_of_json(bad) is None
            &&& loaded_of_json(bare_list(items)) is None
            &&& loaded_of_json(wrapped_list(image_size, items)) is None
        }),
{
    lemma_keys_differ();
    let bad = Json::Object(
        seq![
            ("name"@, Json::Text(name)),
            ("x"@, json_number(x as int)),
            ("y"@, json_number(y as int)),
            ("width"@, Json::Number(JsonNumber::Negative(width))),
            ("height"@, json_number(height as int)),
        ],
    );
    let members = bad->Object_0;
    lemma_member_position(members, "width"@);
    assert(members[3].0 == "width"@);
    assert(json_field(bad, "width"@) == Some(Json::Number(JsonNumber::Negative(width))));
    lemma_region_needs_every_member(bad, "width"@);
    let items = before.push(bad) + after;
    assert(items[before.len() as int] == bad);
    lemma_bad_item_rejects_both_shapes(image_size, items, before.len() as int);
}

/// A region object without a `name` stands for no region, and a text that
/// holds such an object among its regions is rejected whole, as a document
/// and as a bare list.
pub proof fn lemma_missing_name_rejects(
    x: u64,
    y: u64,
    width: u64,
    height: u64,
    image_size: Json,
    before: Seq<Json>,
    after: Seq<Json>,
)
    ensures
        ({
            let bad = Json::Object(
                seq![
                    ("x"@, json_number(x as int)),
                    ("y"@, json_number(y as int)),
                    ("width"@, json_number(width as int)),
                    ("height"@, json_number(height as int)),
                ],
            );
            let items = before.push(bad) + after;
            &&& region_of_json(bad) is None
            &&& loaded_of_json(bare_list(items)) is None
            &&& loaded_of_json(wrapped_list(image_size, items)) is None
        }),
{
    lemma_keys_differ();
    let bad = Json::Object(
        seq![
            ("x"@, json_number(x as int)),
            ("y"@, json_number(y as int)),
            ("width"@, json_number(width as int)),
            ("height"@, json_number(height as int)),
        ],
    );
    let members = bad->Object_0;
    lemma_member_position(members, "name"@);
    assert(members[0].0 == "x"@);
    assert(members[1].0 == "y"@);
    assert(members[2].0 == "width"@);
    assert(members[3].0 == "height"@);
    assert(json_field(bad, "name"@) is None);
    let items = before.push(bad) + after;
    assert(items[before.len() as int] == bad);
    lemma_bad_item_rejects_both_shapes(image_size, items, before.len() as int);
}

/// Builds the JSON object that stands for a region.
fn region_to_value(region: &Region) -> (value: serde_json::Value)
    ensures
        json_model(value) == region_json(region@),
{
    let mut fields: Vec<(String, serde_json::Value)> = Vec::new();
    fields.push(("name".to_owned(), value_of_string(region.name.clone())));
    fields.push(("x".to_owned(), value_of_u64(region.x as u64)));
    fields.push(("y".to_owned(), value_of_u64(region.y as u64)));
    fields.push(("width".to_owned(), value_of_u64(region.width as u64)));
    fields.push(("height".to_owned(), value_of_u64(region.height as u64)));
    proof {
        lemma_keys_differ();
        assert(json_members(fields@) =~= region_json(region@)->Object_0);
    }
    value_of_members(fields)
}

/// Builds the JSON array that stands for a list of regions.
fn regions_to_value(regions: &Vec<Region>) -> (value: serde_json::Value)
    ensures
        json_model(value) == regions_json(region_views(regions@)),
{
    let mut items: Vec<serde_json::Value> = Vec::new();
    let mut i: usize = 0;
    while i < regions.len()
        invariant
            i <= regions@.len(),
            items@.len() == i,
            forall|j: int| 0 <= j < i ==> json_model(#[trigger] items@[j]) == region_json(regions@[j]@),
        decreases regions@.len() - i,
    {
        items.push(region_to_value(&regions[i]));
        i = i + 1;
    }
    assert(json_models(items@) =~= region_views(regions@).map_values(
        |r: RegionView| region_json(r),
    ));
    value_of_array(items)
}

/// Reads the member of an object with the given key as a pixel count.
fn pixels_from_value(value: &serde_json::Value, key: &str) -> (pixels: Option<usize>)
    ensures
        pixels == json_pixels(json_model(*value), key@),
{
    match value_field(value, key) {
        Some(member) => match value_as_u64(member) {
            Some(n) => if n <= usize::MAX as u64 {
                Some(n as usize)
            } else {
                None
            },
            None => None,
        },
        None => None,
    }
}

/// Reads a JSON value as a region.
fn region_from_value(value: &serde_json::Value) -> (region: Option<Region>)
    ensures
        region is Some <==> region_of_json(json_model(*value)) is Some,
        region matches Some(r) ==> region_of_json(json_model(*value)) == Some(r@),
{
    let name = match value_field(value, "name") {
        Some(member) => match value_as_str(member) {
            Some(text) => text.to_owned(),
            None => {
                return None;
            },
        },
        None => {
            return None;
        },
    };
    let x = pixels_from_value(value, "x");
    let y = pixels_from_value(value, "y");
    let width = pixels_from_value(value, "width");
    let height = pixels_from_value(value, "height");
    match (x, y, width, height) {
        (Some(x), Some(y), Some(width), Some(height)) => Some(
            Region { name, x, y, width, height },
        ),
        _ => None,
    }
}

/// Reads a JSON value as a list of regions.
fn regions_from_value(value: &serde_json::Value) -> (regions: Option<Vec<Region>>)
    ensures
        regions is Some <==> regions_of_json(json_model(*value)) is Some,
        regions matches Some(list) ==> regions_of_json(json_model(*value)) == Some(
            region_views(list@),
        ),
{
    let items = match value_as_array(value) {
        Some(items) => items,
        None => {
            return None;
        },
    };
    let ghost models = json_models(items@);
    let mut out: Vec<Region> = Vec::new();
    let mut i: usize = 0;
    while i < items.len()
        invariant
            i <= items@.len(),
            out@.len() == i,
            models == json_models(items@),
            json_items(json_model(*value)) == Some(models),
            forall|j: int| 0 <= j < i ==> region_of_json(models[j]) == Some((#[trigger] out@[j])@),
        decreases items@.len() - i,
    {
        match region_from_value(&items[i]) {
            Some(region) => {
                out.push(region);
            },
            None => {
                assert(region_of_json(models[i as int]) is None);
                return None;
            },
        }
        i = i + 1;
    }
    proof {
        assert forall|j: int| 0 <= j < models.len() implies (#[trigger] region_of_json(
            models[j],
        )) == Some(out@[j]@) by {
            assert(region_of_json(models[j]) == Some(out@[j]@));
        }
        assert(region_views(out@) =~= models.map_values(|item: Json| region_of_json(item)->0));
    }
    Some(out)
}

/// Reads a JSON value as a card size.
fn image_size_from_value(value: &serde_json::Value) -> (size: Option<(usize, usize)>)
    ensures
        size == image_size_of_json(json_model(*value)),
{
    let items = match value_as_array(value) {
        Some(items) => items,
        None => {
            return None;
        },
    };
    if items.len() != 2 {
        return None;
    }
    match (value_as_u64(&items[0]), value_as_u64(&items[1])) {
        (Some(width), Some(height)) => if width <= usize::MAX as u64 && height
            <= usize::MAX as u64 {
            Some((width as usize, height as usize))
        } else {
            None
        },
        _ => None,
    }
}

/// Reads a JSON value as a document.
fn wrapped_from_value(value: &serde_json::Value) -> (document: Option<RegionDocument>)
    ensures
        document is Some <==> wrapped_of_json(json_model(*value)) is Some,
        document matches Some(d) ==> wrapped_of_json(json_model(*value)) == Some(d@),
{
    let size = match value_field(value, "image_size") {
        Some(member) => image_size_from_value(member),
        None => {
            return None;
        },
    };
    let regions = match value_field(value, "regions") {
        Some(member) => regions_from_value(member),
        None => {
            return None;
        },
    };
    match (size, regions) {
        (Some(image_size), Some(regions)) => Some(RegionDocument { image_size, regions }),
        _ => None,
    }
}

/// Reads a parsed JSON value: as a document first; failing that, as a bare
/// list of regions; failing that, the value is of unknown format.
pub fn loaded_from_value(value: &serde_json::Value) -> (result: Result<Loaded, ParseError>)
    ensures
        result is Ok <==> loaded_of_json(json_model(*value)) is Some,
        result matches Ok(loaded) ==> loaded_of_json(json_model(*value)) == Some(loaded@),
        result matches Err(e) ==> e == ParseError::UnknownFormat,
{
    match wrapped_from_value(value) {
        Some(document) => Ok(Loaded::Document(document)),
        None => match regions_from_value(value) {
            Some(regions) => Ok(Loaded::Legacy(regions)),
            None => Err(ParseError::UnknownFormat),
        },
    }
}

/// Reads the text of a region document. A text that is not JSON, or whose
/// JSON is neither a document nor a bare list of regions, is of unknown
/// format.
pub fn deserialize(text: &[u8]) -> (result: Result<Loaded, ParseError>)
    ensures
        result is Ok <==> loaded_of_text(text@) is Some,
        result matches Ok(loaded) ==> loaded_of_text(text@) == Some(loaded@),
        result matches Err(e) ==> e == ParseError::UnknownFormat,
{
    match parse_value(text) {
        Ok(value) => loaded_from_value(&value),
        Err(_) => Err(ParseError::UnknownFormat),
    }
}

impl ParseError {
    /// The message to show for the error.
    pub fn message(&self) -> (text: String)
        ensures
            text@ == "unknown format"@,
    {
        "unknown format".to_owned()
    }
}

impl RegionDocument {
    /// Builds the JSON value that stands for the document.
    pub fn to_value(&self) -> (value: serde_json::Value)
        ensures
            json_model(value) == document_json(self@),
    {
        let mut size: Vec<serde_json::Value> = Vec::new();
        size.push(value_of_u64(self.image_size.0 as u64));
        size.push(value_of_u64(self.image_size.1 as u64));
        let size_value = value_of_array(size);
        let regions_value = regions_to_value(&self.regions);
        let mut fields: Vec<(String, serde_json::Value)> = Vec::new();
        fields.push(("image_size".to_owned(), size_value));
        fields.push(("regions".to_owned(), regions_value));
        proof {
            lemma_keys_differ();
            assert(json_models(size@) =~= seq![
                json_number(self.image_size.0 as int),
                json_number(self.image_size.1 as int),
            ]);
            assert(json_members(fields@) =~= document_json(self@)->Object_0);
        }
        value_of_members(fields)
    }

    /// Whether two documents are the same: the same card size and the same
    /// regions in the same order.
    pub fn same_as(&self, other: &RegionDocument) -> (same: bool)
        ensures
            same == (self@ == other@),
    {
        if self.image_size.0 != other.image_size.0 || self.image_size.1 != other.image_size.1
            || self.regions.len() != other.regions.len() {
            assert(self@.regions.len() == self.regions@.len());
            assert(other@.regions.len() == other.regions@.len());
            return false;
        }
        let mut i: usize = 0;
        while i < self.regions.len()
            invariant
                i <= self.regions@.len(),
                self.regions@.len() == other.regions@.len(),
                forall|j: int| 0 <= j < i ==> (#[trigger] self.regions@[j])@ == other.regions@[j]@,
            decreases self.regions@.len() - i,
        {
            let a = &self.regions[i];
            let b = &other.regions[i];
            if a.name != b.name || a.x != b.x || a.y != b.y || a.width != b.width || a.height
                != b.height {
                assert(self@.regions[i as int] == a@);
                assert(other@.regions[i as int] == b@);
                return false;
            }
            i = i + 1;
        }
        assert(self@.regions =~= other@.regions);
        true
    }

    /// Writes the document as indented JSON text, and reads the text back
    /// before handing it out: a text that is given is read by `deserialize`
    /// as this very document. `None` where the printer fails or its text
    /// does not read back.
    pub fn to_bytes(&self) -> (text: Option<Vec<u8>>)
        ensures
            text matches Some(bytes) ==> json_printed(document_json(self@)) == Some(bytes@)
                && loaded_of_text(bytes@) == Some(LoadedView::Document(self@)),
            text is None ==> (match json_printed(document_json(self@)) {
                Some(printed) => loaded_of_text(printed) != Some(LoadedView::Document(self@)),
                None => true,
            }),
    {
        let value = self.to_value();
        let bytes = match print_value(&value) {
            Ok(bytes) => bytes,
            Err(_) => {
                return None;
            },
        };
        match deserialize(bytes.as_slice()) {
            Ok(Loaded::Document(back)) => if self.same_as(&back) {
                Some(bytes)
            } else {
                None
            },
            _ => None,
        }
    }
}

impl RegionStore {
    /// The document of the store: its regions in order, with the card size in
    /// effect.
    pub fn serialize(&self, card: CardSize) -> (document: RegionDocument)
        ensures
            document@ == (DocumentView {
                image_size: (card.width(), card.height()),
                regions: self@,
            }),
    {
        RegionDocument { image_size: (card.width(), card.height()), regions: self.to_vec() }
    }
}

} // verus!
