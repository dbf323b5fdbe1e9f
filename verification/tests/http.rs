use article_server::http::{
    articles_create, articles_list, handle, index_response, products_response,
    Request,
};
use article_server::product::{demo_products, product_json_text, products_json_text, Product};

#[test]
fn index_returns_200_and_index_page() {
    let r = index_response();
    assert_eq!(r.status, 200);
    assert_eq!(r.body, "Index page");
}

#[test]
fn index_via_route_table() {
    let r = handle(&Request::Index);
    assert_eq!(r.status, 200);
    assert_eq!(r.body, "Index page");
}

#[test]
fn products_returns_200_and_fixed_json_array() {
    let r = products_response();
    assert_eq!(r.status, 200);
    assert_eq!(r.body, "[{\"id\":\"1\",\"title\":\"AAA\"},{\"id\":\"2\",\"title\":\"BBB\"}]");
}

#[test]
fn products_via_route_table() {
    let r = handle(&Request::Products);
    assert_eq!(r.status, 200);
    assert_eq!(r.body, "[{\"id\":\"1\",\"title\":\"AAA\"},{\"id\":\"2\",\"title\":\"BBB\"}]");
}

#[test]
fn articles_list_stub_returns_500() {
    let r = articles_list();
    assert_eq!(r.status, 500);
    assert_eq!(r.body, "");
    let r = handle(&Request::ArticlesList);
    assert_eq!(r.status, 500);
    assert_eq!(r.body, "");
}

#[test]
fn articles_create_stub_returns_500() {
    let r = articles_create();
    assert_eq!(r.status, 500);
    assert_eq!(r.body, "");
    let r = handle(&Request::ArticlesCreate);
    assert_eq!(r.status, 500);
    assert_eq!(r.body, "");
}

#[test]
fn one_product_renders_as_a_json_object() {
    let p = Product { id: String::from("42"), title: String::from("Widget") };
    assert_eq!(product_json_text(&p), "{\"id\":\"42\",\"title\":\"Widget\"}");
}

#[test]
fn empty_product_list_renders_as_empty_array() {
    let ps: Vec<Product> = Vec::new();
    assert_eq!(products_json_text(&ps), "[]");
}

#[test]
fn demo_products_hold_the_fixed_entries() {
    let ps = demo_products();
    assert_eq!(ps.len(), 2);
    assert_eq!(ps[0].id, "1");
    assert_eq!(ps[0].title, "AAA");
    assert_eq!(ps[1].id, "2");
    assert_eq!(ps[1].title, "BBB");
}
