use wallhaven_picker::catalog::ImageData;
use wallhaven_picker::select::{
    get_random_images, images_from_response, pick_images, sample_catalog, DataError, SAMPLE_SIZE,
};
use wallhaven_picker::catalog::CatalogError;

fn catalog(n: usize) -> Vec<ImageData> {
    (0..n)
        .map(|i| ImageData::new(format!("full{}", i), format!("thumb{}", i)))
        .collect()
}

fn is_member(d: &ImageData, list: &[ImageData]) -> bool {
    list.iter().any(|x| x.path == d.path && x.thumb == d.thumb)
}

#[test]
fn sample_has_five_members_of_catalog() {
    for n in [1usize, 2, 3, 7] {
        let list = catalog(n);
        let r = get_random_images(list.clone());
        assert_eq!(r.len(), 5);
        assert_eq!(SAMPLE_SIZE, 5);
        for d in &r {
            assert!(is_member(d, &list));
        }
    }
}

#[test]
fn sample_of_one_repeats_it() {
    let r = get_random_images(catalog(1));
    assert!(r.iter().all(|d| d.path == "full0" && d.thumb == "thumb0"));
}

#[test]
fn sample_of_empty_catalog_fails() {
    assert_eq!(sample_catalog(Vec::new()).unwrap_err(), DataError::EmptyCatalog);
    assert_eq!(sample_catalog(catalog(2)).unwrap().len(), 5);
}

#[test]
fn pick_follows_indices() {
    let list = catalog(3);
    let r = pick_images(&list, &vec![2, 0, 2]);
    let got: Vec<&str> = r.iter().map(|d| d.path.as_str()).collect();
    assert_eq!(got, vec!["full2", "full0", "full2"]);
}

#[test]
fn response_gives_five_images() {
    let text = "{\"data\":[{\"path\":\"p\",\"thumbs\":{\"large\":\"l\"}}]}".to_string();
    let r = images_from_response(text).unwrap();
    assert_eq!(r.len(), 5);
    assert!(r.iter().all(|d| d.path == "p" && d.thumb == "l"));
}

#[test]
fn response_errors() {
    assert_eq!(
        images_from_response("{\"data\":[]}".to_string()).unwrap_err(),
        DataError::EmptyCatalog
    );
    assert_eq!(
        images_from_response("{}".to_string()).unwrap_err(),
        DataError::Catalog(CatalogError::MissingData)
    );
    assert_eq!(
        images_from_response("<html>".to_string()).unwrap_err(),
        DataError::Catalog(CatalogError::Syntax)
    );
}
