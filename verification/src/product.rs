//! Products: what a group keeps in stock and puts into meals.

use vstd::prelude::*;
use vstd::std_specs::convert::FromSpecImpl;
use crate::model::{contains_id, has_id, lemma_views_push, views, Row};

verus! {

/// A stored product.
#[derive(Debug, PartialEq, Eq)]
pub struct Product {
    pub id: i32,
    pub name: String,
    pub group_id: i32,
}

/// The mathematical value of a `Product`.
pub struct ProductView {
    pub id: i32,
    pub name: Seq<char>,
    pub group_id: i32,
}

impl View for Product {
    type V = ProductView;

    open spec fn view(&self) -> ProductView {
        ProductView { id: self.id, name: self.name@, group_id: self.group_id }
    }
}

impl Clone for Product {
    fn clone(&self) -> (r: Self)
        ensures
            r@ == self@,
    {
        Product { id: self.id, name: self.name.clone(), group_id: self.group_id }
    }
}

impl Row for Product {
    open spec fn row_id(&self) -> i32 {
        self.id
    }

    fn id(&self) -> (id: i32) {
        self.id
    }
}

/// A product as the service shows it.
#[derive(Debug, Clone, PartialEq, Eq)]
pub struct ProductDto {
    pub id: i32,
    pub name: String,
    pub group_id: i32,
}

/// A product that is to be stored: storage gives it its id.
#[derive(Debug, Clone, PartialEq, Eq)]
pub struct CreateProductDto {
    pub name: String,
    pub group_id: i32,
}

impl From<Product> for ProductDto {
    fn from(product: Product) -> (dto: ProductDto) {
        ProductDto { id: product.id, name: product.name, group_id: product.group_id }
    }
}

impl FromSpecImpl<Product> for ProductDto {
    open spec fn obeys_from_spec() -> bool {
        true
    }

    open spec fn from_spec(product: Product) -> ProductDto {
        ProductDto { id: product.id, name: product.name, group_id: product.group_id }
    }
}

pub struct ProductService;

impl ProductService {
    /// Whether a product with the id `id` is stored.
    pub fn exists_by_id(products: &Vec<Product>, id: i32) -> (found: bool)
        ensures
            found == has_id(products@, id),
    {
        contains_id(products, id)
    }

    /// All products, as they are stored.
    pub fn get_all_products(products: &Vec<Product>) -> (all: Vec<Product>)
        ensures
            views(all@) == views(products@),
    {
        let mut all: Vec<Product> = Vec::new();
        let mut i: usize = 0;
        while i < products.len()
            invariant
                i <= products.len(),
                views(all@) == views(products@).take(i as int),
            decreases products.len() - i,
        {
            let copy = products[i].clone();
            proof {
                lemma_views_push(all@, copy);
                assert(views(products@).take(i + 1) =~= views(products@).take(i as int).push(
                    products@[i as int]@,
                ));
            }
            all.push(copy);
            i += 1;
        }
        assert(views(products@).take(products.len() as int) =~= views(products@));
        all
    }
}

} // verus!
