use shopsavvy_sdk::{ApiMeta, ApiResponse, ProductDetails, ProductSearchResult};

fn product(images: Option<Vec<String>>, amazon: Option<String>) -> ProductDetails {
    ProductDetails {
        title: "Widget".to_string(),
        shopsavvy: "ss-1".to_string(),
        brand: None,
        category: None,
        images,
        barcode: None,
        amazon,
        model: None,
        mpn: None,
        color: None,
    }
}

#[test]
fn product_accessors() {
    let p = product(Some(vec!["a.png".to_string(), "b.png".to_string()]), Some("B0".to_string()));
    assert_eq!(p.name(), "Widget");
    assert_eq!(p.product_id(), "ss-1");
    assert_eq!(p.asin(), Some("B0"));
    assert_eq!(p.image_url(), Some("a.png"));
    let q = product(Some(vec![]), None);
    assert_eq!(q.asin(), None);
    assert_eq!(q.image_url(), None);
    assert_eq!(product(None, None).image_url(), None);
}

#[test]
fn credits_from_meta() {
    let meta = ApiMeta { credits_used: 3, credits_remaining: 97, rate_limit_remaining: Some(10) };
    let r = ApiResponse { success: true, data: 1u8, message: None, meta: Some(meta.clone()) };
    assert_eq!(r.credits_used(), 3);
    assert_eq!(r.credits_remaining(), 97);
    let none = ApiResponse { success: true, data: (), message: None, meta: None };
    assert_eq!(none.credits_used(), 0);
    assert_eq!(none.credits_remaining(), 0);
    let s = ProductSearchResult { success: true, data: vec![], pagination: None, meta: Some(meta) };
    assert_eq!(s.credits_used(), 3);
    assert_eq!(s.credits_remaining(), 97);
    let s = ProductSearchResult { success: true, data: vec![], pagination: None, meta: None };
    assert_eq!(s.credits_used(), 0);
}
