//! The product listing: a fixed demonstration catalogue and the JSON
//! framing used to present it.
//!
//! Products are not persisted; the catalogue is rebuilt on every request.

use vstd::prelude::*;

verus! {

/// A catalogue entry: an identifier and a title, both plain text.
pub struct Product {
    pub id: String,
    pub title: String,
}

/// The mathematical value of a [`Product`]: both fields as character
/// sequences.
pub struct ProductView {
    pub id: Seq<char>,
    pub title: Seq<char>,
}

impl View for Product {
    type V = ProductView;

    open spec fn view(&self) -> ProductView {
        ProductView { id: self.id@, title: self.title@ }
    }
}

/// The JSON object text for one product: `{"id":"<id>","title":"<title>"}`.
///
/// The fields are spliced in verbatim, so the result is well-formed JSON
/// only when they contain no character that JSON requires to be escaped;
/// the fixed catalogue satisfies that.
pub open spec fn product_json(p: ProductView) -> Seq<char> {
    "{\"id\":\""@ + p.id + "\",\"title\":\""@ + p.title + "\"}"@
}

/// The comma-separated concatenation of the JSON objects for `ps`.
pub open spec fn products_json_items(ps: Seq<ProductView>) -> Seq<char>
    decreases ps.len(),
{
    if ps.len() == 0 {
        Seq::empty()
    } else if ps.len() == 1 {
        product_json(ps[0])
    } else {
        products_json_items(ps.drop_last()) + ","@ + product_json(ps.last())
    }
}

/// The JSON array text for `ps`: the objects joined by commas, in brackets.
pub open spec fn products_json(ps: Seq<ProductView>) -> Seq<char> {
    "["@ + products_json_items(ps) + "]"@
}

/// Renders one product as its JSON object text.
pub fn product_json_text(p: &Product) -> (r: String)
    ensures
        r@ == product_json(p@),
{
    let mut s = String::from_str("{\"id\":\"");
    s.append(p.id.as_str());
    s.append("\",\"title\":\"");
    s.append(p.title.as_str());
    s.append("\"}");
    s
}

/// Renders a product list as its JSON array text.
pub fn products_json_text(ps: &Vec<Product>) -> (r: String)
    ensures
        r@ == products_json(ps@.map_values(|p: Product| p@)),
{
    let ghost views = ps@.map_values(|p: Product| p@);
    let mut s = String::from_str("[");
    proof {
        assert(views.take(0) =~= Seq::<ProductView>::empty());
        assert(s@ =~= "["@ + products_json_items(views.take(0)));
    }
    let mut i: usize = 0;
    while i < ps.len()
        invariant
            i <= ps@.len(),
            views == ps@.map_values(|p: Product| p@),
            s@ == "["@ + products_json_items(views.take(i as int)),
        decreases ps@.len() - i,
    {
        if i > 0 {
            s.append(",");
        }
        let item = product_json_text(&ps[i]);
        s.append(item.as_str());
        proof {
            let j = i as int;
            assert(views.take(j + 1).drop_last() =~= views.take(j));
            assert(views.take(j + 1).last() == views[j]);
            if i == 0 {
                assert(views.take(1)[0] == views[0]);
            }
            assert(s@ =~= "["@ + products_json_items(views.take(j + 1)));
        }
        i = i + 1;
    }
    proof {
        assert(views.take(ps@.len() as int) =~= views);
    }
    s.append("]");
    s
}

/// The fixed two-entry demonstration catalogue.
pub open spec fn demo_products_view() -> Seq<ProductView> {
    seq![
        ProductView { id: "1"@, title: "AAA"@ },
        ProductView { id: "2"@, title: "BBB"@ },
    ]
}

/// Builds the fixed two-entry demonstration catalogue.
pub fn demo_products() -> (r: Vec<Product>)
    ensures
        r@.map_values(|p: Product| p@) == demo_products_view(),
{
    let mut v: Vec<Product> = Vec::new();
    v.push(Product { id: String::from_str("1"), title: String::from_str("AAA") });
    v.push(Product { id: String::from_str("2"), title: String::from_str("BBB") });
    proof {
        assert(v@.map_values(|p: Product| p@) =~= demo_products_view());
    }
    v
}

} // verus!
