use calby_docs::router::{from_code_and_msg, main_route, router};

#[test]
fn reply_from_code() {
    let r = from_code_and_msg(418, None);
    assert_eq!(r.status, 418);
    assert_eq!(r.content_type, "text/html; charset=utf-8");
    assert_eq!(r.body, None);
    let r = from_code_and_msg(200, Some("ok"));
    assert_eq!(r.body, Some("ok".to_string()));
}

#[test]
fn main_route_reply() {
    let r = main_route();
    assert_eq!(r.status, 201);
    assert_eq!(r.body, Some("main route".to_string()));
}

#[test]
fn routing() {
    assert_eq!(router("GET", "/").status, 201);
    let r = router("POST", "/");
    assert_eq!(r.status, 404);
    assert_eq!(r.body, Some("404: Route not found".to_string()));
    assert_eq!(router("GET", "/x").status, 404);
    assert_eq!(router("get", "/").status, 404);
}
