use crate::catalog::{catalog_of_text, convert_to_image_list, records_view, CatalogError, ImageData};
use vstd::prelude::*;

verus! {

/// How many images one search hands back to the user.
pub const SAMPLE_SIZE: usize = 5;

/// Relies on rand::thread_rng and Rng::gen_range: a value drawn uniformly from
/// `0..n`; gen_range panics only on an empty range.
#[verifier::external_body]
fn random_index(n: usize) -> (r: usize)
    requires
        n > 0,
    ensures
        r < n,
{
    rand::Rng::gen_range(&mut rand::thread_rng(), 0..n)
}

/// The records of `catalog` at the given positions, in the order of `indices`;
/// a position may repeat.
pub fn pick_images(catalog: &Vec<ImageData>, indices: &Vec<usize>) -> (r: Vec<ImageData>)
    requires
        forall|i: int| 0 <= i < indices.len() ==> indices[i] < catalog.len(),
    ensures
        r.len() == indices.len(),
        forall|i: int| 0 <= i < indices.len() ==> #[trigger] r[i]@ == catalog[indices[i] as int]@,
{
    let mut r: Vec<ImageData> = Vec::new();
    let mut k: usize = 0;
    while k < indices.len()
        invariant
            k <= indices.len(),
            r.len() == k,
            forall|i: int| 0 <= i < indices.len() ==> indices[i] < catalog.len(),
            forall|i: int| 0 <= i < k ==> #[trigger] r[i]@ == catalog[indices[i] as int]@,
        decreases indices.len() - k,
    {
        r.push(catalog[indices[k]].duplicate());
        k = k + 1;
    }
    r
}

/// `x` is one of the records of `catalog`.
pub open spec fn is_drawn_from(x: (Seq<char>, Seq<char>), catalog: Seq<(Seq<char>, Seq<char>)>) -> bool {
    exists|j: int| 0 <= j < catalog.len() && #[trigger] catalog[j] == x
}

/// Draws `SAMPLE_SIZE` records of a non-empty catalog uniformly at random,
/// with replacement: every record of the result is one of the catalog.
pub fn get_random_images(image_list: Vec<ImageData>) -> (r: Vec<ImageData>)
    requires
        image_list.len() > 0,
    ensures
        r.len() == SAMPLE_SIZE,
        forall|i: int| 0 <= i < r.len() ==> is_drawn_from(r[i]@, records_view(image_list@)),
{
    let mut indices: Vec<usize> = Vec::new();
    let mut k: usize = 0;
    while k < SAMPLE_SIZE
        invariant
            k <= SAMPLE_SIZE,
            image_list.len() > 0,
            indices.len() == k,
            forall|i: int| 0 <= i < k ==> indices[i] < image_list.len(),
        decreases SAMPLE_SIZE - k,
    {
        indices.push(random_index(image_list.len()));
        k = k + 1;
    }
    let r = pick_images(&image_list, &indices);
    assert forall|i: int| 0 <= i < r.len() implies is_drawn_from(r[i]@, records_view(image_list@)) by {
        assert(records_view(image_list@)[indices[i] as int] == r[i]@);
    }
    r
}

/// Why a search response gave no images.
#[derive(Debug, Clone, Copy, PartialEq, Eq, Structural)]
pub enum DataError {
    /// The response holds no catalog.
    Catalog(CatalogError),
    /// The catalog is empty: there is nothing to draw from.
    EmptyCatalog,
}

/// Draws `SAMPLE_SIZE` records from a catalog, failing on an empty one.
pub fn sample_catalog(image_list: Vec<ImageData>) -> (r: Result<Vec<ImageData>, DataError>)
    ensures
        image_list.len() == 0 <==> r == Err::<Vec<ImageData>, DataError>(DataError::EmptyCatalog),
        r is Err ==> image_list.len() == 0,
        r matches Ok(v) ==> v.len() == SAMPLE_SIZE && forall|i: int|
            0 <= i < v.len() ==> is_drawn_from(#[trigger] v[i]@, records_view(image_list@)),
{
    if image_list.len() == 0 {
        Err(DataError::EmptyCatalog)
    } else {
        Ok(get_random_images(image_list))
    }
}

/// The images offered for one search response: `SAMPLE_SIZE` records drawn
/// from its catalog, or why there are none.
pub fn images_from_response(data: String) -> (r: Result<Vec<ImageData>, DataError>)
    ensures
        match catalog_of_text(data@) {
            Ok(c) => if c.len() == 0 {
                r == Err::<Vec<ImageData>, DataError>(DataError::EmptyCatalog)
            } else {
                r matches Ok(v) && v.len() == SAMPLE_SIZE && forall|i: int|
                    0 <= i < v.len() ==> is_drawn_from(#[trigger] v[i]@, c)
            },
            Err(e) => r == Err::<Vec<ImageData>, DataError>(DataError::Catalog(e)),
        },
{
    match convert_to_image_list(data) {
        Ok(list) => sample_catalog(list),
        Err(e) => Err(DataError::Catalog(e)),
    }
}

} // verus!
