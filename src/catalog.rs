use crate::json::{
    items_view, json_doc, json_parses, members_view, parse_value, value_node, value_view, JsonNode,
    JsonView,
};
use vstd::prelude::*;

verus! {

/// One image of a search result: its full-resolution URL and its thumbnail URL.
#[derive(Clone, Debug)]
pub struct ImageData {
    pub path: String,
    pub thumb: String,
}

impl View for ImageData {
    type V = (Seq<char>, Seq<char>);

    open spec fn view(&self) -> (Seq<char>, Seq<char>) {
        (self.path@, self.thumb@)
    }
}

impl ImageData {
    pub fn new(path: String, thumb: String) -> (r: ImageData)
        ensures
            r@ == (path@, thumb@),
    {
        ImageData { path, thumb }
    }

    /// A copy of the record, with the same URLs.
    pub fn duplicate(&self) -> (r: ImageData)
        ensures
            r@ == self@,
    {
        ImageData { path: self.path.clone(), thumb: self.thumb.clone() }
    }
}

/// Why a search response holds no catalog.
#[derive(Debug, Clone, Copy, PartialEq, Eq, Structural)]
pub enum CatalogError {
    /// The response is not JSON.
    Syntax,
    /// The document has no `data` array.
    MissingData,
    /// The element of `data` at this position lacks a `path` string or a
    /// `thumbs.large` string.
    BadRecord(usize),
}

/// The value of the first member of `entries` named `key`.
pub open spec fn member(entries: Seq<(Seq<char>, JsonView)>, key: Seq<char>) -> Option<JsonView>
    decreases entries.len(),
{
    if entries.len() == 0 {
        None
    } else if entries[0].0 == key {
        Some(entries[0].1)
    } else {
        member(entries.drop_first(), key)
    }
}

/// The member `key` of `j`, when `j` is an object that has one.
pub open spec fn member_of(j: JsonView, key: Seq<char>) -> Option<JsonView> {
    match j {
        JsonView::Object(entries) => member(entries, key),
        _ => None,
    }
}

/// The text of the member `key` of `j`, when that member is a string.
pub open spec fn text_of(j: JsonView, key: Seq<char>) -> Option<Seq<char>> {
    match member_of(j, key) {
        Some(JsonView::Str(s)) => Some(s),
        _ => None,
    }
}

/// The image an element of the `data` array describes: its `path` and its
/// `thumbs.large`, both strings.
pub open spec fn record_of(item: JsonView) -> Option<(Seq<char>, Seq<char>)> {
    match (text_of(item, "path"@), member_of(item, "thumbs"@)) {
        (Some(p), Some(thumbs)) => match text_of(thumbs, "large"@) {
            Some(l) => Some((p, l)),
            None => None,
        },
        _ => None,
    }
}

/// The position of the first element of `items` that describes no image.
pub open spec fn first_bad(items: Seq<JsonView>) -> int {
    choose|k: int|
        0 <= k < items.len() && record_of(items[k]) is None && forall|i: int|
            0 <= i < k ==> (#[trigger] record_of(items[i])) is Some
}

/// The catalog of a document: one record per element of its `data` array, in
/// order, or the error that names what is missing first.
pub open spec fn catalog_of(doc: JsonView) -> Result<Seq<(Seq<char>, Seq<char>)>, CatalogError> {
    match member_of(doc, "data"@) {
        Some(JsonView::Array(items)) => if forall|i: int|
            0 <= i < items.len() ==> (#[trigger] record_of(items[i])) is Some {
            Ok(items.map_values(|x: JsonView| record_of(x)->Some_0))
        } else {
            Err(CatalogError::BadRecord(first_bad(items) as usize))
        },
        _ => Err(CatalogError::MissingData),
    }
}

/// The catalog of a response text, as the JSON parser reads it.
pub open spec fn catalog_of_text(text: Seq<char>) -> Result<Seq<(Seq<char>, Seq<char>)>, CatalogError> {
    if json_parses(text) {
        catalog_of(json_doc(text))
    } else {
        Err(CatalogError::Syntax)
    }
}

/// The views of a sequence of records.
pub open spec fn records_view(v: Seq<ImageData>) -> Seq<(Seq<char>, Seq<char>)> {
    v.map_values(|d: ImageData| d@)
}

/// The view of a catalog result.
pub open spec fn result_view(r: Result<Vec<ImageData>, CatalogError>) -> Result<
    Seq<(Seq<char>, Seq<char>)>,
    CatalogError,
> {
    match r {
        Ok(v) => Ok(records_view(v@)),
        Err(e) => Err(e),
    }
}

/// The member of a parsed value named `key`.
pub fn json_member<'a>(v: &'a serde_json::Value, key: &String) -> (r: Option<&'a serde_json::Value>)
    ensures
        match r {
            Some(x) => member_of(value_view(*v), key@) == Some(value_view(*x)),
            None => member_of(value_view(*v), key@) is None,
        },
{
    match value_node(v) {
        JsonNode::Object(entries) => {
            let ghost es = members_view(entries@);
            let mut i: usize = 0;
            assert(es.subrange(0, entries.len() as int) =~= es);
            while i < entries.len()
                invariant
                    i <= entries.len(),
                    es == members_view(entries@),
                    member_of(value_view(*v), key@) == member(es, key@),
                    member(es, key@) == member(es.subrange(i as int, entries.len() as int), key@),
                decreases entries.len() - i,
            {
                if entries[i].0 == *key {
                    let ghost sub = es.subrange(i as int, entries.len() as int);
                    assert(member(sub, key@) == Some(sub[0].1));
                    return Some(entries[i].1);
                }
                assert(es.subrange(i as int, entries.len() as int).drop_first() =~= es.subrange(
                    i + 1,
                    entries.len() as int,
                ));
                i = i + 1;
            }
            None
        },
        _ => None,
    }
}

/// The text of the member `key` of a parsed value, when it is a string.
fn json_text(v: &serde_json::Value, key: &String) -> (r: Option<String>)
    ensures
        match r {
            Some(s) => text_of(value_view(*v), key@) == Some(s@),
            None => text_of(value_view(*v), key@) is None,
        },
{
    match json_member(v, key) {
        Some(x) => match value_node(x) {
            JsonNode::Str(s) => Some(s),
            _ => None,
        },
        None => None,
    }
}

/// The image one element of the `data` array describes.
pub fn read_record(item: &serde_json::Value) -> (r: Option<ImageData>)
    ensures
        match r {
            Some(d) => record_of(value_view(*item)) == Some(d@),
            None => record_of(value_view(*item)) is None,
        },
{
    let path_key = String::from_str("path");
    let thumbs_key = String::from_str("thumbs");
    let large_key = String::from_str("large");
    let path = json_text(item, &path_key);
    let thumbs = json_member(item, &thumbs_key);
    match (path, thumbs) {
        (Some(p), Some(t)) => match json_text(t, &large_key) {
            Some(l) => Some(ImageData::new(p, l)),
            None => None,
        },
        _ => None,
    }
}

/// The catalog of a parsed search response.
pub fn catalog_from_json(json: &serde_json::Value) -> (r: Result<Vec<ImageData>, CatalogError>)
    ensures
        result_view(r) == catalog_of(value_view(*json)),
{
    let data_key = String::from_str("data");
    match json_member(json, &data_key) {
        Some(data) => match value_node(data) {
            JsonNode::Array(a) => {
                let ghost items = items_view(a@);
                let mut list: Vec<ImageData> = Vec::new();
                let mut i: usize = 0;
                while i < a.len()
                    invariant
                        i <= a.len(),
                        items == items_view(a@),
                        member_of(value_view(*json), "data"@) == Some(JsonView::Array(items)),
                        list.len() == i,
                        forall|k: int| 0 <= k < i ==> (#[trigger] record_of(items[k])) == Some(list[k]@),
                    decreases a.len() - i,
                {
                    match read_record(&a[i]) {
                        Some(d) => list.push(d),
                        None => {
                            proof {
                                let k = first_bad(items);
                                assert(record_of(items[i as int]) is None);
                                assert(forall|j: int| 0 <= j < i ==> (#[trigger] record_of(items[j])) is Some);
                                if k < i {
                                    assert(record_of(items[k]) is Some);
                                } else if k > i {
                                    assert(record_of(items[i as int]) is Some);
                                }
                            }
                            return Err(CatalogError::BadRecord(i));
                        },
                    }
                    i = i + 1;
                }
                assert(records_view(list@) =~= items.map_values(|x: JsonView| record_of(x)->Some_0));
                Ok(list)
            },
            _ => Err(CatalogError::MissingData),
        },
        None => Err(CatalogError::MissingData),
    }
}

/// Reads the image catalog out of a search response's text.
pub fn convert_to_image_list(data: String) -> (r: Result<Vec<ImageData>, CatalogError>)
    ensures
        result_view(r) == catalog_of_text(data@),
{
    match parse_value(data.as_str()) {
        Ok(json) => catalog_from_json(&json),
        Err(_) => Err(CatalogError::Syntax),
    }
}

} // verus!
