use imgscrpr::provider::imgur::is_collection;

#[test]
fn it_returns_true_on_album() {
    let url = "https://imgur.com/a/cdJA3"; // imgur album
    let result = is_collection(url);
    assert!(result);
}

#[test]
fn it_returns_true_on_gallery() {
    let url = "https://imgur.com/gallery/KtiYY";
    let result = is_collection(url);
    assert!(result);
}

#[test]
fn it_returns_false_on_single_image() {
    let url = "https://i.imgur.com/Z94RUOi.jpg";
    let result = is_collection(url);
    assert!(!result);
}
