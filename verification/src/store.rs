//! The persistence model and the cart/order service.
//!
//! `Store` holds the six tables of the storefront (users, products, carts,
//! cart items, orders, order items) and owns their invariants: unique ids,
//! one cart per user, at most one cart item per (cart, product) pair,
//! quantities at least one, and order ids in insertion order. Every mutation
//! goes through a method that states its exact effect on the mathematical
//! model [`StoreModel`] and preserves [`wf`].
//!
//! Rows keep their product id even after the product itself is removed from
//! the catalog (order items are snapshots; cart items surface the missing
//! product as a not-found failure when the cart is read), so there is
//! deliberately no referential constraint from cart or order items to the
//! product table.

use vstd::prelude::*;

verus! {

/// An account, created on first signup and kept as-is afterwards.
pub struct UserRow {
    pub id: i64,
    pub username: Option<String>,
    pub first_name: String,
    pub last_name: Option<String>,
}

/// A catalog entry. The price is an integer number of minor currency units
/// (cents), stored exactly as parsed from the user's text, never scaled.
pub struct Product {
    pub id: i64,
    pub name: String,
    pub description: String,
    pub price: i64,
    pub image: String,
}

/// A user's cart; exactly one per signed-up user.
#[derive(Clone, Copy, Debug)]
pub struct Cart {
    pub id: i64,
    pub user_id: i64,
}

/// A quantity-bearing link between a cart and a product.
#[derive(Clone, Copy, Debug)]
pub struct CartItem {
    pub id: i64,
    pub cart_id: i64,
    pub product_id: i64,
    pub quantity: i64,
}

/// A placed order.
#[derive(Clone, Copy, Debug)]
pub struct Order {
    pub id: i64,
    pub user_id: i64,
}

/// A snapshot of one cart item at checkout time.
#[derive(Clone, Copy, Debug)]
pub struct OrderItem {
    pub order_id: i64,
    pub product_id: i64,
    pub quantity: i64,
}

/// The failures the service reports to its callers.
#[derive(Clone, Copy, PartialEq, Eq, Structural, Debug)]
pub enum StoreError {
    /// The referenced row does not exist.
    NotFound,
    /// The caller's cart row is missing (signup always creates one, so this
    /// is an invariant violation, not a user error).
    CartNotFound,
    /// A quantity below one was rejected; quantities are always at least one.
    InvalidQuantity,
    /// An auto-assigned id space is exhausted.
    IdsExhausted,
    /// A line total or grand total no longer fits in 64 bits.
    AmountOverflow,
}

/// Whether an add-to-cart call created a new row or raised an existing one.
#[derive(Clone, Copy, PartialEq, Eq, Structural, Debug)]
pub enum AddToCartOutcome {
    Inserted,
    Incremented,
}

/// What a checkout did.
#[derive(Clone, Copy, PartialEq, Eq, Structural, Debug)]
pub enum PlaceOrderOutcome {
    /// An order was created from the cart's items.
    Placed { order_id: i64 },
    /// The cart had no items (or the user has no cart); nothing happened.
    EmptyCart,
}

/// The mathematical content of a [`Store`]: the six tables as sequences,
/// plus the next value of each auto-assigned id.
#[verifier::ext_equal]
pub struct StoreModel {
    pub users: Seq<UserRow>,
    pub products: Seq<Product>,
    pub carts: Seq<Cart>,
    pub cart_items: Seq<CartItem>,
    pub orders: Seq<Order>,
    pub order_items: Seq<OrderItem>,
    pub next_product_id: int,
    pub next_cart_id: int,
    pub next_cart_item_id: int,
    pub next_order_id: int,
}

/// The durable tables of the storefront.
pub struct Store {
    pub users: Vec<UserRow>,
    pub products: Vec<Product>,
    pub carts: Vec<Cart>,
    pub cart_items: Vec<CartItem>,
    pub orders: Vec<Order>,
    pub order_items: Vec<OrderItem>,
    pub next_product_id: i64,
    pub next_cart_id: i64,
    pub next_cart_item_id: i64,
    pub next_order_id: i64,
}

impl View for Store {
    type V = StoreModel;

    open spec fn view(&self) -> StoreModel {
        StoreModel {
            users: self.users@,
            products: self.products@,
            carts: self.carts@,
            cart_items: self.cart_items@,
            orders: self.orders@,
            order_items: self.order_items@,
            next_product_id: self.next_product_id as int,
            next_cart_id: self.next_cart_id as int,
            next_cart_item_id: self.next_cart_item_id as int,
            next_order_id: self.next_order_id as int,
        }
    }
}

/// The store's invariant, established by [`Store::new`] and preserved by
/// every operation.
pub open spec fn wf(m: StoreModel) -> bool {
    &&& 1 <= m.next_product_id <= i64::MAX
    &&& 1 <= m.next_cart_id <= i64::MAX
    &&& 1 <= m.next_cart_item_id <= i64::MAX
    &&& 1 <= m.next_order_id <= i64::MAX
    // users: unique identities
    &&& forall|i: int, j: int|
        0 <= i < j < m.users.len() ==> #[trigger] m.users[i].id != #[trigger] m.users[j].id
    // products: unique assigned ids
    &&& forall|i: int|
        0 <= i < m.products.len() ==> 1 <= #[trigger] m.products[i].id < m.next_product_id
    &&& forall|i: int, j: int|
        0 <= i < j < m.products.len() ==> #[trigger] m.products[i].id != #[trigger] m.products[
            j
        ].id
    // carts: unique ids, at most one cart per user
    &&& forall|i: int| 0 <= i < m.carts.len() ==> 1 <= #[trigger] m.carts[i].id < m.next_cart_id
    &&& forall|i: int, j: int|
        0 <= i < j < m.carts.len() ==> #[trigger] m.carts[i].id != #[trigger] m.carts[j].id
    &&& forall|i: int, j: int|
        0 <= i < j < m.carts.len() ==> #[trigger] m.carts[i].user_id != #[trigger] m.carts[
            j
        ].user_id
    // cart items: unique ids, at most one row per (cart, product) pair,
    // quantity at least one, and the cart they belong to exists
    &&& forall|i: int|
        0 <= i < m.cart_items.len() ==> 1 <= #[trigger] m.cart_items[i].id < m.next_cart_item_id
    &&& forall|i: int, j: int|
        0 <= i < j < m.cart_items.len() ==> #[trigger] m.cart_items[i].id
            != #[trigger] m.cart_items[j].id
    &&& forall|i: int, j: int|
        0 <= i < j < m.cart_items.len() ==> !(#[trigger] m.cart_items[i].cart_id
            == #[trigger] m.cart_items[j].cart_id && m.cart_items[i].product_id == m.cart_items[
            j
        ].product_id)
    &&& forall|i: int| 0 <= i < m.cart_items.len() ==> #[trigger] m.cart_items[i].quantity >= 1
    &&& forall|i: int|
        0 <= i < m.cart_items.len() ==> cart_id_in(m.carts, #[trigger] m.cart_items[i].cart_id)
    // orders: ids assigned in insertion order
    &&& forall|i: int| 0 <= i < m.orders.len() ==> 1 <= #[trigger] m.orders[i].id < m.next_order_id
    &&& forall|i: int, j: int|
        0 <= i < j < m.orders.len() ==> #[trigger] m.orders[i].id < #[trigger] m.orders[j].id
    // order items: snapshots of checked-out cart items
    &&& forall|i: int|
        0 <= i < m.order_items.len() ==> order_id_in(m.orders, #[trigger] m.order_items[i].order_id)
    &&& forall|i: int| 0 <= i < m.order_items.len() ==> #[trigger] m.order_items[i].quantity >= 1
}

pub open spec fn cart_id_in(carts: Seq<Cart>, cart_id: i64) -> bool {
    exists|i: int| 0 <= i < carts.len() && #[trigger] carts[i].id == cart_id
}

pub open spec fn order_id_in(orders: Seq<Order>, order_id: i64) -> bool {
    exists|i: int| 0 <= i < orders.len() && #[trigger] orders[i].id == order_id
}

pub open spec fn has_user(users: Seq<UserRow>, user_id: i64) -> bool {
    exists|i: int| 0 <= i < users.len() && #[trigger] users[i].id == user_id
}

/// Index of the one user row with `user_id` (meaningful under `has_user`).
pub open spec fn user_index(users: Seq<UserRow>, user_id: i64) -> int {
    choose|i: int| 0 <= i < users.len() && #[trigger] users[i].id == user_id
}

pub open spec fn has_cart(carts: Seq<Cart>, user_id: i64) -> bool {
    exists|i: int| 0 <= i < carts.len() && #[trigger] carts[i].user_id == user_id
}

/// Index of the one cart owned by `user_id` (meaningful under `has_cart`).
pub open spec fn cart_index(carts: Seq<Cart>, user_id: i64) -> int {
    choose|i: int| 0 <= i < carts.len() && #[trigger] carts[i].user_id == user_id
}

/// Id of the one cart owned by `user_id` (meaningful under `has_cart`).
pub open spec fn user_cart_id(carts: Seq<Cart>, user_id: i64) -> i64 {
    carts[cart_index(carts, user_id)].id
}

pub open spec fn has_product(products: Seq<Product>, product_id: i64) -> bool {
    exists|i: int| 0 <= i < products.len() && #[trigger] products[i].id == product_id
}

/// Index of the product with `product_id` (meaningful under `has_product`).
pub open spec fn product_index(products: Seq<Product>, product_id: i64) -> int {
    choose|i: int| 0 <= i < products.len() && #[trigger] products[i].id == product_id
}

/// The product with `product_id` (meaningful under `has_product`).
pub open spec fn product_of(products: Seq<Product>, product_id: i64) -> Product {
    products[product_index(products, product_id)]
}

pub open spec fn has_cart_item(items: Seq<CartItem>, cart_id: i64, product_id: i64) -> bool {
    exists|i: int|
        0 <= i < items.len() && #[trigger] items[i].cart_id == cart_id && items[i].product_id
            == product_id
}

/// Index of the one cart item for the (cart, product) pair.
pub open spec fn cart_item_pair_index(items: Seq<CartItem>, cart_id: i64, product_id: i64) -> int {
    choose|i: int|
        0 <= i < items.len() && #[trigger] items[i].cart_id == cart_id && items[i].product_id
            == product_id
}

pub open spec fn has_cart_item_id(items: Seq<CartItem>, cart_item_id: i64) -> bool {
    exists|i: int| 0 <= i < items.len() && #[trigger] items[i].id == cart_item_id
}

/// Index of the cart item with `cart_item_id`.
pub open spec fn cart_item_id_index(items: Seq<CartItem>, cart_item_id: i64) -> int {
    choose|i: int| 0 <= i < items.len() && #[trigger] items[i].id == cart_item_id
}

/// The items currently in the cart of `user_id`, in insertion order
/// (meaningful under `has_cart`).
pub open spec fn user_cart_items(items: Seq<CartItem>, carts: Seq<Cart>, user_id: i64) -> Seq<
    CartItem,
> {
    items.filter(|ci: CartItem| ci.cart_id == user_cart_id(carts, user_id))
}

// What each mutation does to the model.
/// Signup: insert the user row, or refresh the stored name fields of the
/// existing one (an idempotent upsert); then insert an empty cart for the
/// user unless one exists.
pub open spec fn spec_signup(m: StoreModel, user: UserRow) -> StoreModel {
    let m1 = if has_user(m.users, user.id) {
        StoreModel { users: m.users.update(user_index(m.users, user.id), user), ..m }
    } else {
        StoreModel { users: m.users.push(user), ..m }
    };
    if has_cart(m1.carts, user.id) {
        m1
    } else {
        StoreModel {
            carts: m1.carts.push(Cart { id: m1.next_cart_id as i64, user_id: user.id }),
            next_cart_id: m1.next_cart_id + 1,
            ..m1
        }
    }
}

/// Catalog insert with a fresh id.
pub open spec fn spec_add_product(
    m: StoreModel,
    name: String,
    description: String,
    price: i64,
    image: String,
) -> StoreModel {
    StoreModel {
        products: m.products.push(
            Product { id: m.next_product_id as i64, name, description, price, image },
        ),
        next_product_id: m.next_product_id + 1,
        ..m
    }
}

/// Catalog delete by id. Cart and order rows that reference the product are
/// left in place (order items are snapshots; cart reads surface the gap).
pub open spec fn spec_remove_product(m: StoreModel, product_id: i64) -> StoreModel {
    StoreModel { products: m.products.filter(|p: Product| p.id != product_id), ..m }
}

/// Insert-or-increment for the (cart of `user_id`, `product_id`) pair
/// (meaningful under `has_cart`).
pub open spec fn spec_add_to_cart(m: StoreModel, user_id: i64, product_id: i64) -> StoreModel {
    let cart_id = user_cart_id(m.carts, user_id);
    if has_cart_item(m.cart_items, cart_id, product_id) {
        let i = cart_item_pair_index(m.cart_items, cart_id, product_id);
        let it = m.cart_items[i];
        StoreModel {
            cart_items: m.cart_items.update(
                i,
                CartItem { quantity: (it.quantity + 1) as i64, ..it },
            ),
            ..m
        }
    } else {
        StoreModel {
            cart_items: m.cart_items.push(
                CartItem {
                    id: m.next_cart_item_id as i64,
                    cart_id,
                    product_id,
                    quantity: 1,
                },
            ),
            next_cart_item_id: m.next_cart_item_id + 1,
            ..m
        }
    }
}

/// Cart item delete by id.
pub open spec fn spec_remove_cart_item(m: StoreModel, cart_item_id: i64) -> StoreModel {
    StoreModel { cart_items: m.cart_items.filter(|ci: CartItem| ci.id != cart_item_id), ..m }
}

/// Quantity replacement for the cart item with `cart_item_id` (meaningful
/// under `has_cart_item_id`).
pub open spec fn spec_set_cart_item_quantity(
    m: StoreModel,
    cart_item_id: i64,
    quantity: i64,
) -> StoreModel {
    let i = cart_item_id_index(m.cart_items, cart_item_id);
    StoreModel {
        cart_items: m.cart_items.update(i, CartItem { quantity, ..m.cart_items[i] }),
        ..m
    }
}

/// Checkout: one new order, every cart item copied into an order item
/// snapshot, the cart emptied — all at once (meaningful under `has_cart`).
pub open spec fn spec_place_order(m: StoreModel, user_id: i64) -> StoreModel {
    let cart_id = user_cart_id(m.carts, user_id);
    let items = m.cart_items.filter(|ci: CartItem| ci.cart_id == cart_id);
    StoreModel {
        orders: m.orders.push(Order { id: m.next_order_id as i64, user_id }),
        order_items: m.order_items + items.map_values(
            |ci: CartItem|
                OrderItem {
                    order_id: m.next_order_id as i64,
                    product_id: ci.product_id,
                    quantity: ci.quantity,
                },
        ),
        cart_items: m.cart_items.filter(|ci: CartItem| ci.cart_id != cart_id),
        next_order_id: m.next_order_id + 1,
        ..m
    }
}

// Small sequence facts used when loops rebuild a filtered table.
/// Filtering a sequence extended by one element.
pub proof fn lemma_filter_push<A>(s: Seq<A>, pred: spec_fn(A) -> bool, x: A)
    ensures
        s.push(x).filter(pred) == if pred(x) {
            s.filter(pred).push(x)
        } else {
            s.filter(pred)
        },
{
    reveal(Seq::filter);
    assert(s.push(x).drop_last() =~= s);
    assert(s.push(x).last() == x);
}

/// A property of every element survives filtering.
pub proof fn lemma_filter_all<A>(s: Seq<A>, pred: spec_fn(A) -> bool, q: spec_fn(A) -> bool)
    requires
        forall|i: int| 0 <= i < s.len() ==> q(#[trigger] s[i]),
    ensures
        forall|i: int| 0 <= i < s.filter(pred).len() ==> q(#[trigger] s.filter(pred)[i]),
    decreases s.len(),
{
    reveal(Seq::filter);
    if s.len() > 0 {
        let d = s.drop_last();
        let x = s.last();
        lemma_filter_all(d, pred, q);
        let t = s.filter(pred);
        assert forall|i: int| 0 <= i < t.len() implies q(t[i]) by {
            if pred(x) {
                assert(t == d.filter(pred).push(x));
                if i < t.len() - 1 {
                    assert(t[i] == d.filter(pred)[i]);
                } else {
                    assert(t[i] == x && q(s[s.len() - 1]));
                }
            } else {
                assert(t == d.filter(pred));
            }
        }
    }
}

/// A pairwise property (in index order) survives pushing an element that
/// relates to every existing one.
pub proof fn lemma_push_pairwise<A>(s: Seq<A>, x: A, rel: spec_fn(A, A) -> bool)
    requires
        forall|i: int, j: int| 0 <= i < j < s.len() ==> rel(#[trigger] s[i], #[trigger] s[j]),
        forall|i: int| 0 <= i < s.len() ==> rel(#[trigger] s[i], x),
    ensures
        forall|i: int, j: int|
            0 <= i < j < s.push(x).len() ==> rel(#[trigger] s.push(x)[i], #[trigger] s.push(x)[j]),
{
    assert forall|i: int, j: int|
        0 <= i < j < s.push(x).len() implies rel(s.push(x)[i], s.push(x)[j]) by {
        if j == s.len() {
            assert(s.push(x)[i] == s[i] && s.push(x)[j] == x);
        } else {
            assert(s.push(x)[i] == s[i] && s.push(x)[j] == s[j]);
        }
    }
}

/// A pairwise property (in index order) survives replacing one element by
/// one that relates to every other.
pub proof fn lemma_update_pairwise<A>(s: Seq<A>, k: int, x: A, rel: spec_fn(A, A) -> bool)
    requires
        0 <= k < s.len(),
        forall|i: int, j: int| 0 <= i < j < s.len() ==> rel(#[trigger] s[i], #[trigger] s[j]),
        forall|i: int| 0 <= i < s.len() && i != k ==> rel(#[trigger] s[i], x) && rel(x, s[i]),
    ensures
        forall|i: int, j: int|
            0 <= i < j < s.update(k, x).len() ==> rel(
                #[trigger] s.update(k, x)[i],
                #[trigger] s.update(k, x)[j],
            ),
{
    assert forall|i: int, j: int|
        0 <= i < j < s.update(k, x).len() implies rel(s.update(k, x)[i], s.update(k, x)[j]) by {
        if i == k {
            assert(s.update(k, x)[i] == x && s.update(k, x)[j] == s[j]);
        } else if j == k {
            assert(s.update(k, x)[i] == s[i] && s.update(k, x)[j] == x);
        } else {
            assert(s.update(k, x)[i] == s[i] && s.update(k, x)[j] == s[j]);
        }
    }
}

/// A pairwise property (in index order) survives filtering.
pub proof fn lemma_filter_pairwise<A>(
    s: Seq<A>,
    pred: spec_fn(A) -> bool,
    rel: spec_fn(A, A) -> bool,
)
    requires
        forall|i: int, j: int| 0 <= i < j < s.len() ==> rel(#[trigger] s[i], #[trigger] s[j]),
    ensures
        forall|i: int, j: int|
            0 <= i < j < s.filter(pred).len() ==> rel(
                #[trigger] s.filter(pred)[i],
                #[trigger] s.filter(pred)[j],
            ),
    decreases s.len(),
{
    reveal(Seq::filter);
    if s.len() > 0 {
        let d = s.drop_last();
        let x = s.last();
        lemma_filter_pairwise(d, pred, rel);
        lemma_filter_all(d, pred, |a: A| rel(a, x));
        let t = s.filter(pred);
        if pred(x) {
            assert forall|i: int, j: int| 0 <= i < j < t.len() implies rel(t[i], t[j]) by {
                if j < t.len() - 1 {
                    assert(t[i] == d.filter(pred)[i] && t[j] == d.filter(pred)[j]);
                } else {
                    assert(t[j] == x && t[i] == d.filter(pred)[i]);
                }
            }
        }
    }
}

impl Store {
    /// An empty store.
    pub fn new() -> (s: Store)
        ensures
            wf(s@),
            s@.users.len() == 0,
            s@.products.len() == 0,
            s@.carts.len() == 0,
            s@.cart_items.len() == 0,
            s@.orders.len() == 0,
            s@.order_items.len() == 0,
            s@.next_product_id == 1,
            s@.next_cart_id == 1,
            s@.next_cart_item_id == 1,
            s@.next_order_id == 1,
    {
        Store {
            users: Vec::new(),
            products: Vec::new(),
            carts: Vec::new(),
            cart_items: Vec::new(),
            orders: Vec::new(),
            order_items: Vec::new(),
            next_product_id: 1,
            next_cart_id: 1,
            next_cart_item_id: 1,
            next_order_id: 1,
        }
    }

    fn find_user(&self, user_id: i64) -> (r: Option<usize>)
        ensures
            r is Some <==> has_user(self@.users, user_id),
            r matches Some(i) ==> 0 <= i < self@.users.len() && self@.users[i as int].id == user_id,
    {
        let n = self.users.len();
        let mut i: usize = 0;
        while i < n
            invariant
                n == self@.users.len(),
                0 <= i <= n,
                forall|k: int| 0 <= k < i ==> #[trigger] self@.users[k].id != user_id,
            decreases n - i,
        {
            if self.users[i].id == user_id {
                return Some(i);
            }
            i = i + 1;
        }
        None
    }

    /// Index of the one cart owned by `user_id`.
    fn find_cart(&self, user_id: i64) -> (r: Option<usize>)
        requires
            wf(self@),
        ensures
            r is Some <==> has_cart(self@.carts, user_id),
            r matches Some(i) ==> i == cart_index(self@.carts, user_id) && 0 <= i < self@.carts.len()
                && self@.carts[i as int].user_id == user_id,
    {
        let n = self.carts.len();
        let mut i: usize = 0;
        while i < n
            invariant
                wf(self@),
                n == self@.carts.len(),
                0 <= i <= n,
                forall|k: int| 0 <= k < i ==> #[trigger] self@.carts[k].user_id != user_id,
            decreases n - i,
        {
            if self.carts[i].user_id == user_id {
                proof {
                    let j = cart_index(self@.carts, user_id);
                    assert(0 <= j < self@.carts.len() && self@.carts[j].user_id == user_id);
                }
                return Some(i);
            }
            i = i + 1;
        }
        None
    }

    /// Index of the product with `product_id`.
    pub fn find_product(&self, product_id: i64) -> (r: Option<usize>)
        requires
            wf(self@),
        ensures
            r is Some <==> has_product(self@.products, product_id),
            r matches Some(i) ==> i == product_index(self@.products, product_id) && 0 <= i
                < self@.products.len() && self@.products[i as int].id == product_id,
    {
        let n = self.products.len();
        let mut i: usize = 0;
        while i < n
            invariant
                wf(self@),
                n == self@.products.len(),
                0 <= i <= n,
                forall|k: int| 0 <= k < i ==> #[trigger] self@.products[k].id != product_id,
            decreases n - i,
        {
            if self.products[i].id == product_id {
                proof {
                    let j = product_index(self@.products, product_id);
                    assert(0 <= j < self@.products.len() && self@.products[j].id == product_id);
                }
                return Some(i);
            }
            i = i + 1;
        }
        None
    }

    /// Index of the one cart item for the (cart, product) pair.
    fn find_cart_item_pair(&self, cart_id: i64, product_id: i64) -> (r: Option<usize>)
        requires
            wf(self@),
        ensures
            r is Some <==> has_cart_item(self@.cart_items, cart_id, product_id),
            r matches Some(i) ==> i == cart_item_pair_index(self@.cart_items, cart_id, product_id) && 0 <= i
                < self@.cart_items.len() && self@.cart_items[i as int].cart_id == cart_id
                && self@.cart_items[i as int].product_id == product_id,
    {
        let n = self.cart_items.len();
        let mut i: usize = 0;
        while i < n
            invariant
                wf(self@),
                n == self@.cart_items.len(),
                0 <= i <= n,
                forall|k: int|
                    0 <= k < i ==> !(#[trigger] self@.cart_items[k].cart_id == cart_id
                        && self@.cart_items[k].product_id == product_id),
            decreases n - i,
        {
            if self.cart_items[i].cart_id == cart_id && self.cart_items[i].product_id
                == product_id {
                proof {
                    let j = cart_item_pair_index(self@.cart_items, cart_id, product_id);
                    assert(0 <= j < self@.cart_items.len() && self@.cart_items[j].cart_id
                        == cart_id && self@.cart_items[j].product_id == product_id);
                }
                return Some(i);
            }
            i = i + 1;
        }
        None
    }

    /// Index of the cart item with `cart_item_id`.
    fn find_cart_item_by_id(&self, cart_item_id: i64) -> (r: Option<usize>)
        requires
            wf(self@),
        ensures
            r is Some <==> has_cart_item_id(self@.cart_items, cart_item_id),
            r matches Some(i) ==> i == cart_item_id_index(self@.cart_items, cart_item_id) && 0 <= i
                < self@.cart_items.len() && self@.cart_items[i as int].id == cart_item_id,
    {
        let n = self.cart_items.len();
        let mut i: usize = 0;
        while i < n
            invariant
                wf(self@),
                n == self@.cart_items.len(),
                0 <= i <= n,
                forall|k: int| 0 <= k < i ==> #[trigger] self@.cart_items[k].id != cart_item_id,
            decreases n - i,
        {
            if self.cart_items[i].id == cart_item_id {
                proof {
                    let j = cart_item_id_index(self@.cart_items, cart_item_id);
                    assert(0 <= j < self@.cart_items.len() && self@.cart_items[j].id
                        == cart_item_id);
                }
                return Some(i);
            }
            i = i + 1;
        }
        None
    }

    /// Idempotent signup: insert the user row, or refresh the name fields of
    /// the existing one, and insert an empty cart only if none exists.
    pub fn signup(
        &mut self,
        id: i64,
        username: Option<String>,
        first_name: String,
        last_name: Option<String>,
    ) -> (r: Result<(), StoreError>)
        requires
            wf(old(self)@),
        ensures
            wf(final(self)@),
            r is Ok <==> (has_cart(old(self)@.carts, id) || old(self)@.next_cart_id < i64::MAX),
            r is Ok ==> final(self)@ == spec_signup(
                old(self)@,
                UserRow { id, username, first_name, last_name },
            ),
            r is Err ==> *final(self) == *old(self) && r == Result::<(), StoreError>::Err(
                StoreError::IdsExhausted,
            ),
            r is Ok ==> has_cart(final(self)@.carts, id) && has_user(final(self)@.users, id),
    {
        let ghost m0 = self@;
        let ghost row = UserRow { id, username, first_name, last_name };
        let cart_exists = self.find_cart(id).is_some();
        if !cart_exists && self.next_cart_id == i64::MAX {
            return Err(StoreError::IdsExhausted);
        }
        match self.find_user(id) {
            Some(u) => {
                proof {
                    let w = user_index(m0.users, id);
                    assert(0 <= w < m0.users.len() && m0.users[w].id == id);
                    assert(w == u) by {
                        if w != u {
                            assert(m0.users[w].id != m0.users[u as int].id);
                        }
                    }
                }
                self.users.set(u, UserRow { id, username, first_name, last_name });
                proof {
                    lemma_update_pairwise(
                        m0.users,
                        u as int,
                        row,
                        |a: UserRow, b: UserRow| a.id != b.id,
                    );
                }
            },
            None => {
                self.users.push(UserRow { id, username, first_name, last_name });
                proof {
                    lemma_push_pairwise(m0.users, row, |a: UserRow, b: UserRow| a.id != b.id);
                }
            },
        }
        let ghost m1 = self@;
        proof {
            assert(m1 =~= (if has_user(m0.users, id) {
                StoreModel { users: m0.users.update(user_index(m0.users, id), row), ..m0 }
            } else {
                StoreModel { users: m0.users.push(row), ..m0 }
            }));
            assert(m1.carts == m0.carts);
            assert(has_cart(m1.carts, id) == has_cart(m0.carts, id));
            if !has_user(m0.users, id) {
                assert(m1.users[m1.users.len() - 1].id == id);
            } else {
                assert(m1.users[user_index(m0.users, id)].id == id);
            }
            assert(has_user(m1.users, id));
        }
        if !cart_exists {
            let cart = Cart { id: self.next_cart_id, user_id: id };
            self.carts.push(cart);
            self.next_cart_id = self.next_cart_id + 1;
            proof {
                let mf = self@;
                assert(mf =~= StoreModel {
                    carts: m1.carts.push(Cart { id: m1.next_cart_id as i64, user_id: id }),
                    next_cart_id: m1.next_cart_id + 1,
                    ..m1
                });
                assert(mf.carts[mf.carts.len() - 1].user_id == id);
                assert(has_cart(mf.carts, id));
                assert(wf(mf)) by {
                    assert(forall|k: int|
                        0 <= k < m1.carts.len() ==> #[trigger] mf.carts[k] == m1.carts[k]);
                    assert forall|i: int, j: int| 0 <= i < j < mf.carts.len() implies mf.carts[
                        i
                    ].id != mf.carts[j].id && mf.carts[i].user_id != mf.carts[j].user_id by {
                        if j == mf.carts.len() - 1 {
                            assert(mf.carts[i] == m1.carts[i]);
                        } else {
                            assert(mf.carts[i] == m1.carts[i] && mf.carts[j] == m1.carts[j]);
                        }
                    }
                    assert forall|i: int|
                        0 <= i < mf.cart_items.len() implies cart_id_in(
                        mf.carts,
                        #[trigger] mf.cart_items[i].cart_id,
                    ) by {
                        assert(cart_id_in(m1.carts, mf.cart_items[i].cart_id));
                        let k = choose|k: int|
                            0 <= k < m1.carts.len() && #[trigger] m1.carts[k].id == mf.cart_items[
                                i
                            ].cart_id;
                        assert(mf.carts[k].id == mf.cart_items[i].cart_id);
                    }
                }
            }
        }
        proof {
            assert(self@ =~= spec_signup(m0, row));
        }
        Ok(())
    }

    /// Insert a catalog entry with a fresh id; the four fields are stored
    /// exactly as given.
    pub fn add_product(
        &mut self,
        name: String,
        description: String,
        price: i64,
        image: String,
    ) -> (r: Result<i64, StoreError>)
        requires
            wf(old(self)@),
        ensures
            wf(final(self)@),
            r is Ok <==> old(self)@.next_product_id < i64::MAX,
            r matches Ok(id) ==> id == old(self)@.next_product_id && final(self)@
                == spec_add_product(old(self)@, name, description, price, image),
            r is Err ==> *final(self) == *old(self) && r == Result::<i64, StoreError>::Err(
                StoreError::IdsExhausted,
            ),
    {
        if self.next_product_id == i64::MAX {
            return Err(StoreError::IdsExhausted);
        }
        let ghost m0 = self@;
        let id = self.next_product_id;
        let ghost prod = Product { id, name, description, price, image };
        self.products.push(Product { id, name, description, price, image });
        self.next_product_id = self.next_product_id + 1;
        proof {
            let mf = self@;
            assert(mf =~= spec_add_product(m0, name, description, price, image));
            assert(mf.products == m0.products.push(prod));
            lemma_push_pairwise(m0.products, prod, |a: Product, b: Product| a.id != b.id);
        }
        Ok(id)
    }

    /// Delete a catalog entry by id. Cart items and order items that refer
    /// to the product keep their rows; reads surface the gap as a not-found
    /// failure.
    pub fn remove_product(&mut self, product_id: i64) -> (r: Result<(), StoreError>)
        requires
            wf(old(self)@),
        ensures
            wf(final(self)@),
            r is Ok <==> has_product(old(self)@.products, product_id),
            r is Ok ==> final(self)@ == spec_remove_product(old(self)@, product_id),
            r is Err ==> *final(self) == *old(self) && r == Result::<(), StoreError>::Err(
                StoreError::NotFound,
            ),
    {
        if self.find_product(product_id).is_none() {
            return Err(StoreError::NotFound);
        }
        let ghost m0 = self@;
        let ghost pred = |p: Product| p.id != product_id;
        let n = self.products.len();
        let mut kept: Vec<Product> = Vec::new();
        let mut i: usize = 0;
        while i < n
            invariant
                *self == *old(self),
                wf(self@),
                n == self@.products.len(),
                0 <= i <= n,
                pred == (|p: Product| p.id != product_id),
                kept@ == self@.products.take(i as int).filter(pred),
            decreases n - i,
        {
            let p = &self.products[i];
            let ghost prefix = self@.products.take(i as int);
            proof {
                assert(prefix.push(self@.products[i as int]) =~= self@.products.take(i + 1));
                lemma_filter_push(prefix, pred, self@.products[i as int]);
            }
            if p.id != product_id {
                let copy = Product {
                    id: p.id,
                    name: p.name.clone(),
                    description: p.description.clone(),
                    price: p.price,
                    image: p.image.clone(),
                };
                proof {
                    assert(copy == self@.products[i as int]);
                }
                kept.push(copy);
            }
            i = i + 1;
        }
        proof {
            assert(self@.products.take(n as int) =~= self@.products);
        }
        self.products = kept;
        proof {
            let mf = self@;
            assert(mf =~= spec_remove_product(m0, product_id));
            lemma_filter_pairwise(m0.products, pred, |a: Product, b: Product| a.id != b.id);
            lemma_filter_all(m0.products, pred, |p: Product| 1 <= p.id < m0.next_product_id);
        }
        Ok(())
    }

    /// Insert-or-increment: one more of `product_id` in the cart of
    /// `user_id`. A repeated add never creates a second row for the same
    /// (cart, product) pair; it raises the quantity of the one row.
    pub fn add_to_cart(&mut self, user_id: i64, product_id: i64) -> (r: Result<
        AddToCartOutcome,
        StoreError,
    >)
        requires
            wf(old(self)@),
        ensures
            wf(final(self)@),
            !has_cart(old(self)@.carts, user_id) ==> r == Result::<AddToCartOutcome, StoreError>::Err(
                StoreError::CartNotFound,
            ) && *final(self) == *old(self),
            has_cart(old(self)@.carts, user_id) ==> ({
                let m = old(self)@;
                let cart_id = user_cart_id(m.carts, user_id);
                if has_cart_item(m.cart_items, cart_id, product_id) {
                    if m.cart_items[cart_item_pair_index(m.cart_items, cart_id, product_id)].quantity
                        < i64::MAX {
                        r == Result::<AddToCartOutcome, StoreError>::Ok(
                            AddToCartOutcome::Incremented,
                        ) && final(self)@ == spec_add_to_cart(m, user_id, product_id)
                    } else {
                        r == Result::<AddToCartOutcome, StoreError>::Err(StoreError::AmountOverflow)
                            && *final(self) == *old(self)
                    }
                } else {
                    if m.next_cart_item_id < i64::MAX {
                        r == Result::<AddToCartOutcome, StoreError>::Ok(AddToCartOutcome::Inserted)
                            && final(self)@ == spec_add_to_cart(m, user_id, product_id)
                    } else {
                        r == Result::<AddToCartOutcome, StoreError>::Err(StoreError::IdsExhausted)
                            && *final(self) == *old(self)
                    }
                }
            }),
    {
        let ghost m0 = self@;
        let cart_idx = match self.find_cart(user_id) {
            None => {
                return Err(StoreError::CartNotFound);
            },
            Some(i) => i,
        };
        let cart_id = self.carts[cart_idx].id;
        proof {
            assert(cart_id == user_cart_id(m0.carts, user_id));
        }
        match self.find_cart_item_pair(cart_id, product_id) {
            Some(j) => {
                let it = self.cart_items[j];
                if it.quantity == i64::MAX {
                    return Err(StoreError::AmountOverflow);
                }
                let updated = CartItem { quantity: it.quantity + 1, ..it };
                self.cart_items.set(j, updated);
                proof {
                    let mf = self@;
                    assert(mf =~= spec_add_to_cart(m0, user_id, product_id));
                    lemma_update_pairwise(
                        m0.cart_items,
                        j as int,
                        updated,
                        |a: CartItem, b: CartItem| a.id != b.id,
                    );
                    lemma_update_pairwise(
                        m0.cart_items,
                        j as int,
                        updated,
                        |a: CartItem, b: CartItem|
                            !(a.cart_id == b.cart_id && a.product_id == b.product_id),
                    );
                    assert forall|i: int|
                        0 <= i < mf.cart_items.len() implies cart_id_in(
                        mf.carts,
                        #[trigger] mf.cart_items[i].cart_id,
                    ) by {
                        if i == j {
                            assert(mf.cart_items[i].cart_id == m0.cart_items[i].cart_id);
                        } else {
                            assert(mf.cart_items[i] == m0.cart_items[i]);
                        }
                        assert(cart_id_in(m0.carts, m0.cart_items[i].cart_id));
                    }
                }
                Ok(AddToCartOutcome::Incremented)
            },
            None => {
                if self.next_cart_item_id == i64::MAX {
                    return Err(StoreError::IdsExhausted);
                }
                let item = CartItem {
                    id: self.next_cart_item_id,
                    cart_id,
                    product_id,
                    quantity: 1,
                };
                self.cart_items.push(item);
                self.next_cart_item_id = self.next_cart_item_id + 1;
                proof {
                    let mf = self@;
                    assert(mf =~= spec_add_to_cart(m0, user_id, product_id));
                    lemma_push_pairwise(
                        m0.cart_items,
                        item,
                        |a: CartItem, b: CartItem| a.id != b.id,
                    );
                    lemma_push_pairwise(
                        m0.cart_items,
                        item,
                        |a: CartItem, b: CartItem|
                            !(a.cart_id == b.cart_id && a.product_id == b.product_id),
                    );
                    assert forall|i: int|
                        0 <= i < mf.cart_items.len() implies cart_id_in(
                        mf.carts,
                        #[trigger] mf.cart_items[i].cart_id,
                    ) by {
                        if i < m0.cart_items.len() {
                            assert(mf.cart_items[i] == m0.cart_items[i]);
                            assert(cart_id_in(m0.carts, m0.cart_items[i].cart_id));
                        } else {
                            assert(mf.cart_items[i].cart_id == m0.carts[cart_index(m0.carts, user_id)].id);
                        }
                    }
                }
                Ok(AddToCartOutcome::Inserted)
            },
        }
    }

    /// Delete one cart item by its id.
    pub fn remove_cart_item(&mut self, cart_item_id: i64) -> (r: Result<(), StoreError>)
        requires
            wf(old(self)@),
        ensures
            wf(final(self)@),
            r is Ok <==> has_cart_item_id(old(self)@.cart_items, cart_item_id),
            r is Ok ==> final(self)@ == spec_remove_cart_item(old(self)@, cart_item_id),
            r is Err ==> *final(self) == *old(self) && r == Result::<(), StoreError>::Err(
                StoreError::NotFound,
            ),
    {
        if self.find_cart_item_by_id(cart_item_id).is_none() {
            return Err(StoreError::NotFound);
        }
        let ghost m0 = self@;
        let ghost pred = |ci: CartItem| ci.id != cart_item_id;
        let n = self.cart_items.len();
        let mut kept: Vec<CartItem> = Vec::new();
        let mut i: usize = 0;
        while i < n
            invariant
                *self == *old(self),
                wf(self@),
                n == self@.cart_items.len(),
                0 <= i <= n,
                pred == (|ci: CartItem| ci.id != cart_item_id),
                kept@ == self@.cart_items.take(i as int).filter(pred),
            decreases n - i,
        {
            let it = self.cart_items[i];
            let ghost prefix = self@.cart_items.take(i as int);
            proof {
                assert(prefix.push(self@.cart_items[i as int]) =~= self@.cart_items.take(i + 1));
                lemma_filter_push(prefix, pred, self@.cart_items[i as int]);
            }
            if it.id != cart_item_id {
                kept.push(it);
            }
            i = i + 1;
        }
        proof {
            assert(self@.cart_items.take(n as int) =~= self@.cart_items);
        }
        self.cart_items = kept;
        proof {
            let mf = self@;
            assert(mf =~= spec_remove_cart_item(m0, cart_item_id));
            lemma_filter_pairwise(m0.cart_items, pred, |a: CartItem, b: CartItem| a.id != b.id);
            lemma_filter_pairwise(
                m0.cart_items,
                pred,
                |a: CartItem, b: CartItem| !(a.cart_id == b.cart_id && a.product_id
                    == b.product_id),
            );
            lemma_filter_all(
                m0.cart_items,
                pred,
                |ci: CartItem| 1 <= ci.id < m0.next_cart_item_id,
            );
            lemma_filter_all(m0.cart_items, pred, |ci: CartItem| ci.quantity >= 1);
            lemma_filter_all(m0.cart_items, pred, |ci: CartItem| cart_id_in(m0.carts, ci.cart_id));
        }
        Ok(())
    }

    /// Replace the stored quantity of one cart item. Quantities below one
    /// are rejected: a cart row always stands for at least one unit.
    pub fn set_cart_item_quantity(&mut self, cart_item_id: i64, quantity: i64) -> (r: Result<
        (),
        StoreError,
    >)
        requires
            wf(old(self)@),
        ensures
            wf(final(self)@),
            r is Ok <==> quantity >= 1 && has_cart_item_id(old(self)@.cart_items, cart_item_id),
            r is Ok ==> final(self)@ == spec_set_cart_item_quantity(
                old(self)@,
                cart_item_id,
                quantity,
            ),
            quantity < 1 ==> r == Result::<(), StoreError>::Err(StoreError::InvalidQuantity)
                && *final(self) == *old(self),
            quantity >= 1 && !has_cart_item_id(old(self)@.cart_items, cart_item_id) ==> r == Result::<
                (),
                StoreError,
            >::Err(StoreError::NotFound) && *final(self) == *old(self),
    {
        if quantity < 1 {
            return Err(StoreError::InvalidQuantity);
        }
        let ghost m0 = self@;
        let j = match self.find_cart_item_by_id(cart_item_id) {
            None => {
                return Err(StoreError::NotFound);
            },
            Some(j) => j,
        };
        let it = self.cart_items[j];
        let updated = CartItem { quantity, ..it };
        self.cart_items.set(j, updated);
        proof {
            let mf = self@;
            assert(mf =~= spec_set_cart_item_quantity(m0, cart_item_id, quantity));
            lemma_update_pairwise(
                m0.cart_items,
                j as int,
                updated,
                |a: CartItem, b: CartItem| a.id != b.id,
            );
            lemma_update_pairwise(
                m0.cart_items,
                j as int,
                updated,
                |a: CartItem, b: CartItem| !(a.cart_id == b.cart_id && a.product_id
                    == b.product_id),
            );
            assert forall|i: int|
                0 <= i < mf.cart_items.len() implies cart_id_in(
                mf.carts,
                #[trigger] mf.cart_items[i].cart_id,
            ) by {
                if i == j {
                    assert(mf.cart_items[i].cart_id == m0.cart_items[i].cart_id);
                } else {
                    assert(mf.cart_items[i] == m0.cart_items[i]);
                }
                assert(cart_id_in(m0.carts, m0.cart_items[i].cart_id));
            }
        }
        Ok(())
    }

    /// Checkout. Either all of it happens — one new order row, one order
    /// item snapshot per cart item, the cart emptied — or none of it does.
    /// A cart with no items gets `EmptyCart` and nothing changes; a user
    /// with no cart row at all is an invariant violation (signup always
    /// creates one) and is reported as such.
    pub fn place_order(&mut self, user_id: i64) -> (r: Result<PlaceOrderOutcome, StoreError>)
        requires
            wf(old(self)@),
        ensures
            wf(final(self)@),
            !has_cart(old(self)@.carts, user_id) ==> r == Result::<PlaceOrderOutcome, StoreError>::Err(
                StoreError::CartNotFound,
            ) && *final(self) == *old(self),
            has_cart(old(self)@.carts, user_id) ==> ({
                let m = old(self)@;
                let items = user_cart_items(m.cart_items, m.carts, user_id);
                if items.len() == 0 {
                    r == Result::<PlaceOrderOutcome, StoreError>::Ok(PlaceOrderOutcome::EmptyCart)
                        && *final(self) == *old(self)
                } else if m.next_order_id < i64::MAX {
                    r == Result::<PlaceOrderOutcome, StoreError>::Ok(
                        PlaceOrderOutcome::Placed { order_id: m.next_order_id as i64 },
                    ) && final(self)@ == spec_place_order(m, user_id)
                } else {
                    r == Result::<PlaceOrderOutcome, StoreError>::Err(StoreError::IdsExhausted)
                        && *final(self) == *old(self)
                }
            }),
    {
        let ghost m0 = self@;
        let cart_idx = match self.find_cart(user_id) {
            None => {
                return Err(StoreError::CartNotFound);
            },
            Some(i) => i,
        };
        let cart_id = self.carts[cart_idx].id;
        proof {
            assert(cart_id == user_cart_id(m0.carts, user_id));
        }
        let ghost in_cart = |ci: CartItem| ci.cart_id == cart_id;
        let n = self.cart_items.len();
        let mut items: Vec<CartItem> = Vec::new();
        let mut i: usize = 0;
        while i < n
            invariant
                *self == *old(self),
                n == self@.cart_items.len(),
                0 <= i <= n,
                in_cart == (|ci: CartItem| ci.cart_id == cart_id),
                items@ == self@.cart_items.take(i as int).filter(in_cart),
            decreases n - i,
        {
            let it = self.cart_items[i];
            let ghost prefix = self@.cart_items.take(i as int);
            proof {
                assert(prefix.push(self@.cart_items[i as int]) =~= self@.cart_items.take(i + 1));
                lemma_filter_push(prefix, in_cart, self@.cart_items[i as int]);
            }
            if it.cart_id == cart_id {
                items.push(it);
            }
            i = i + 1;
        }
        proof {
            assert(self@.cart_items.take(n as int) =~= self@.cart_items);
            assert(items@ == user_cart_items(m0.cart_items, m0.carts, user_id));
        }
        if items.len() == 0 {
            return Ok(PlaceOrderOutcome::EmptyCart);
        }
        if self.next_order_id == i64::MAX {
            return Err(StoreError::IdsExhausted);
        }
        let order_id = self.next_order_id;
        let order = Order { id: order_id, user_id };
        self.orders.push(order);
        self.next_order_id = self.next_order_id + 1;
        let ghost snap = |ci: CartItem|
            OrderItem { order_id, product_id: ci.product_id, quantity: ci.quantity };
        let m = items.len();
        let mut k: usize = 0;
        while k < m
            invariant
                m == items@.len(),
                0 <= k <= m,
                self@.users == m0.users,
                self@.products == m0.products,
                self@.carts == m0.carts,
                self@.cart_items == m0.cart_items,
                self@.orders == m0.orders.push(order),
                self@.next_product_id == m0.next_product_id,
                self@.next_cart_id == m0.next_cart_id,
                self@.next_cart_item_id == m0.next_cart_item_id,
                self@.next_order_id == m0.next_order_id + 1,
                order == (Order { id: order_id, user_id }),
                order_id == m0.next_order_id,
                snap == (|ci: CartItem|
                    OrderItem { order_id, product_id: ci.product_id, quantity: ci.quantity }),
                self@.order_items == m0.order_items + items@.take(k as int).map_values(snap),
            decreases m - k,
        {
            let it = items[k];
            self.order_items.push(OrderItem {
                order_id,
                product_id: it.product_id,
                quantity: it.quantity,
            });
            proof {
                assert(items@.take(k + 1).map_values(snap) =~= items@.take(k as int).map_values(
                    snap,
                ).push(snap(items@[k as int])));
                assert(self@.order_items =~= m0.order_items + items@.take(k + 1).map_values(snap));
            }
            k = k + 1;
        }
        proof {
            assert(items@.take(m as int) =~= items@);
        }
        let ghost kept_pred = |ci: CartItem| ci.cart_id != cart_id;
        let mut kept: Vec<CartItem> = Vec::new();
        let mut i2: usize = 0;
        while i2 < n
            invariant
                n == self@.cart_items.len(),
                self@.cart_items == m0.cart_items,
                0 <= i2 <= n,
                kept_pred == (|ci: CartItem| ci.cart_id != cart_id),
                kept@ == self@.cart_items.take(i2 as int).filter(kept_pred),
            decreases n - i2,
        {
            let it = self.cart_items[i2];
            let ghost prefix = self@.cart_items.take(i2 as int);
            proof {
                assert(prefix.push(self@.cart_items[i2 as int]) =~= self@.cart_items.take(i2 + 1));
                lemma_filter_push(prefix, kept_pred, self@.cart_items[i2 as int]);
            }
            if it.cart_id != cart_id {
                kept.push(it);
            }
            i2 = i2 + 1;
        }
        proof {
            assert(m0.cart_items.take(n as int) =~= m0.cart_items);
        }
        self.cart_items = kept;
        proof {
            let mf = self@;
            assert(mf =~= spec_place_order(m0, user_id));
            // orders stay strictly increasing and within bounds
            lemma_push_pairwise(m0.orders, order, |a: Order, b: Order| a.id < b.id);
            // the emptied cart table keeps the invariants
            lemma_filter_pairwise(m0.cart_items, kept_pred, |a: CartItem, b: CartItem| a.id != b.id);
            lemma_filter_pairwise(
                m0.cart_items,
                kept_pred,
                |a: CartItem, b: CartItem| !(a.cart_id == b.cart_id && a.product_id
                    == b.product_id),
            );
            lemma_filter_all(
                m0.cart_items,
                kept_pred,
                |ci: CartItem| 1 <= ci.id < m0.next_cart_item_id,
            );
            lemma_filter_all(m0.cart_items, kept_pred, |ci: CartItem| ci.quantity >= 1);
            lemma_filter_all(
                m0.cart_items,
                kept_pred,
                |ci: CartItem| cart_id_in(m0.carts, ci.cart_id),
            );
            assert forall|i3: int|
                0 <= i3 < mf.cart_items.len() implies cart_id_in(
                mf.carts,
                #[trigger] mf.cart_items[i3].cart_id,
            ) by {
                assert(cart_id_in(m0.carts, mf.cart_items[i3].cart_id));
            }
            // every order item, old or new, names an existing order
            lemma_filter_all(m0.cart_items, in_cart, |ci: CartItem| ci.quantity >= 1);
            assert forall|i3: int|
                0 <= i3 < mf.order_items.len() implies order_id_in(
                mf.orders,
                #[trigger] mf.order_items[i3].order_id,
            ) && mf.order_items[i3].quantity >= 1 by {
                if i3 < m0.order_items.len() {
                    assert(mf.order_items[i3] == m0.order_items[i3]);
                    assert(order_id_in(m0.orders, m0.order_items[i3].order_id));
                    let w = choose|w: int|
                        0 <= w < m0.orders.len() && #[trigger] m0.orders[w].id == m0.order_items[
                            i3
                        ].order_id;
                    assert(mf.orders[w].id == mf.order_items[i3].order_id);
                } else {
                    let q = i3 - m0.order_items.len();
                    assert(mf.order_items[i3] == snap(items@[q]));
                    assert(mf.orders[mf.orders.len() - 1].id == order_id);
                    assert(items@[q].quantity >= 1);
                }
            }
        }
        Ok(PlaceOrderOutcome::Placed { order_id })
    }

    /// The ids of the orders of `user_id`, most recent (highest id) first.
    pub fn orders_of(&self, user_id: i64) -> (v: Vec<i64>)
        requires
            wf(self@),
        ensures
            v@ == user_order_ids(self@, user_id).reverse(),
    {
        let ghost mine = |o: Order| o.user_id == user_id;
        let ghost to_id = |o: Order| o.id;
        let n = self.orders.len();
        let mut asc: Vec<i64> = Vec::new();
        let mut i: usize = 0;
        while i < n
            invariant
                n == self@.orders.len(),
                0 <= i <= n,
                mine == (|o: Order| o.user_id == user_id),
                to_id == (|o: Order| o.id),
                asc@ == self@.orders.take(i as int).filter(mine).map_values(to_id),
            decreases n - i,
        {
            let o = self.orders[i];
            let ghost prefix = self@.orders.take(i as int);
            proof {
                assert(prefix.push(self@.orders[i as int]) =~= self@.orders.take(i + 1));
                lemma_filter_push(prefix, mine, self@.orders[i as int]);
                if mine(self@.orders[i as int]) {
                    assert(prefix.filter(mine).push(self@.orders[i as int]).map_values(to_id)
                        =~= prefix.filter(mine).map_values(to_id).push(self@.orders[i as int].id));
                }
            }
            if o.user_id == user_id {
                asc.push(o.id);
            }
            i = i + 1;
        }
        proof {
            assert(self@.orders.take(n as int) =~= self@.orders);
        }
        let m = asc.len();
        let mut v: Vec<i64> = Vec::new();
        let mut j: usize = m;
        while j > 0
            invariant
                m == asc@.len(),
                0 <= j <= m,
                v@.len() == m - j,
                forall|k: int| 0 <= k < v@.len() ==> #[trigger] v@[k] == asc@[m - 1 - k],
            decreases j,
        {
            j = j - 1;
            v.push(asc[j]);
        }
        proof {
            assert(v@ =~= asc@.reverse());
        }
        v
    }
}

/// The order ids of `user_id`, oldest first.
pub open spec fn user_order_ids(m: StoreModel, user_id: i64) -> Seq<i64> {
    m.orders.filter(|o: Order| o.user_id == user_id).map_values(|o: Order| o.id)
}

/// One priced line of a cart listing.
pub struct CartLine {
    pub cart_item_id: i64,
    pub name: String,
    pub quantity: i64,
    /// `unit price * quantity`, in integer minor units.
    pub line_total: i64,
}

/// A priced cart listing: one line per cart item, and the grand total.
pub struct CartView {
    pub lines: Vec<CartLine>,
    pub total: i64,
}

/// Every item's product is still in the catalog.
pub open spec fn all_products_present(products: Seq<Product>, items: Seq<CartItem>) -> bool {
    forall|i: int| 0 <= i < items.len() ==> has_product(products, #[trigger] items[i].product_id)
}

/// `unit price * quantity` of one cart item, as an unbounded integer.
pub open spec fn spec_line_total(products: Seq<Product>, ci: CartItem) -> int {
    product_of(products, ci.product_id).price * ci.quantity
}

/// Sum of the line totals, as an unbounded integer.
pub open spec fn spec_cart_total(products: Seq<Product>, items: Seq<CartItem>) -> int
    decreases items.len(),
{
    if items.len() == 0 {
        0
    } else {
        spec_cart_total(products, items.drop_last()) + spec_line_total(products, items.last())
    }
}

/// Every line total fits in 64 bits.
pub open spec fn line_totals_fit(products: Seq<Product>, items: Seq<CartItem>) -> bool {
    forall|i: int|
        0 <= i < items.len() ==> i64::MIN <= #[trigger] spec_line_total(products, items[i])
            <= i64::MAX
}

/// Every running total — each prefix sum of the line totals — fits in 64
/// bits.
pub open spec fn prefix_totals_fit(products: Seq<Product>, items: Seq<CartItem>) -> bool {
    forall|k: int|
        0 <= k <= items.len() ==> i64::MIN <= #[trigger] spec_cart_total(products, items.take(k))
            <= i64::MAX
}

impl Store {
    /// Load the cart of `user_id` with its items and the referenced
    /// products, price each line as `unit price * quantity`, and sum the
    /// grand total — all in integer arithmetic. Fails when the user has no
    /// cart (an invariant violation), when an item's product has left the
    /// catalog, or when a total no longer fits in 64 bits.
    pub fn cart_view(&self, user_id: i64) -> (r: Result<CartView, StoreError>)
        requires
            wf(self@),
        ensures
            !has_cart(self@.carts, user_id) ==> r == Result::<CartView, StoreError>::Err(
                StoreError::CartNotFound,
            ),
            has_cart(self@.carts, user_id) ==> ({
                let m = self@;
                let items = user_cart_items(m.cart_items, m.carts, user_id);
                if !all_products_present(m.products, items) {
                    r == Result::<CartView, StoreError>::Err(StoreError::NotFound)
                } else if !(line_totals_fit(m.products, items) && prefix_totals_fit(
                    m.products,
                    items,
                )) {
                    r == Result::<CartView, StoreError>::Err(StoreError::AmountOverflow)
                } else {
                    &&& r is Ok
                    &&& r matches Ok(v) ==> {
                        &&& v.lines@.len() == items.len()
                        &&& forall|i: int|
                            0 <= i < items.len() ==> {
                                &&& (#[trigger] v.lines@[i]).cart_item_id == items[i].id
                                &&& v.lines@[i].name == product_of(m.products, items[i].product_id).name
                                &&& v.lines@[i].quantity == items[i].quantity
                                &&& v.lines@[i].line_total == spec_line_total(m.products, items[i])
                            }
                        &&& v.total == spec_cart_total(m.products, items)
                    }
                }
            }),
    {
        let ghost m = self@;
        let cart_idx = match self.find_cart(user_id) {
            None => {
                return Err(StoreError::CartNotFound);
            },
            Some(i) => i,
        };
        let cart_id = self.carts[cart_idx].id;
        proof {
            assert(cart_id == user_cart_id(m.carts, user_id));
        }
        let ghost in_cart = |ci: CartItem| ci.cart_id == cart_id;
        let n = self.cart_items.len();
        let mut items: Vec<CartItem> = Vec::new();
        let mut i: usize = 0;
        while i < n
            invariant
                wf(self@),
                self@ == m,
                has_cart(m.carts, user_id),
                cart_id == user_cart_id(m.carts, user_id),
                n == m.cart_items.len(),
                0 <= i <= n,
                in_cart == (|ci: CartItem| ci.cart_id == cart_id),
                items@ == m.cart_items.take(i as int).filter(in_cart),
            decreases n - i,
        {
            let it = self.cart_items[i];
            let ghost prefix = m.cart_items.take(i as int);
            proof {
                assert(prefix.push(m.cart_items[i as int]) =~= m.cart_items.take(i + 1));
                lemma_filter_push(prefix, in_cart, m.cart_items[i as int]);
            }
            if it.cart_id == cart_id {
                items.push(it);
            }
            i = i + 1;
        }
        proof {
            assert(m.cart_items.take(n as int) =~= m.cart_items);
            assert(items@ == user_cart_items(m.cart_items, m.carts, user_id));
            lemma_filter_all(m.cart_items, in_cart, |ci: CartItem| ci.quantity >= 1);
        }
        // first pass: every product must still exist
        let count = items.len();
        let mut j: usize = 0;
        while j < count
            invariant
                wf(self@),
                self@ == m,
                has_cart(m.carts, user_id),
                cart_id == user_cart_id(m.carts, user_id),
                count == items@.len(),
                0 <= j <= count,
                items@ == user_cart_items(m.cart_items, m.carts, user_id),
                forall|k: int| 0 <= k < j ==> has_product(m.products, #[trigger] items@[k].product_id),
            decreases count - j,
        {
            if self.find_product(items[j].product_id).is_none() {
                return Err(StoreError::NotFound);
            }
            j = j + 1;
        }
        // second pass: price the lines and sum the total
        let mut lines: Vec<CartLine> = Vec::new();
        let mut total: i64 = 0;
        let mut k: usize = 0;
        while k < count
            invariant
                wf(self@),
                self@ == m,
                has_cart(m.carts, user_id),
                cart_id == user_cart_id(m.carts, user_id),
                count == items@.len(),
                0 <= k <= count,
                items@ == user_cart_items(m.cart_items, m.carts, user_id),
                all_products_present(m.products, items@),
                total == spec_cart_total(m.products, items@.take(k as int)),
                forall|q: int|
                    0 <= q < k ==> i64::MIN <= #[trigger] spec_line_total(m.products, items@[q])
                        <= i64::MAX,
                forall|q: int|
                    0 <= q <= k ==> i64::MIN <= #[trigger] spec_cart_total(
                        m.products,
                        items@.take(q),
                    ) <= i64::MAX,
                lines@.len() == k,
                forall|q: int|
                    0 <= q < k ==> {
                        &&& (#[trigger] lines@[q]).cart_item_id == items@[q].id
                        &&& lines@[q].name == product_of(m.products, items@[q].product_id).name
                        &&& lines@[q].quantity == items@[q].quantity
                        &&& lines@[q].line_total == spec_line_total(m.products, items@[q])
                    },
            decreases count - k,
        {
            let it = items[k];
            let pi = match self.find_product(it.product_id) {
                None => {
                    proof {
                        assert(has_product(m.products, items@[k as int].product_id));
                    }
                    return Err(StoreError::NotFound);
                },
                Some(pi) => pi,
            };
            let price = self.products[pi].price;
            let qty = it.quantity;
            proof {
                assert(self@.products[pi as int] == product_of(m.products, it.product_id));
                // the product of two 64-bit values always fits in 128 bits
                assert(-0x4000_0000_0000_0000_0000_0000_0000_0000 <= (price as int) * (
                qty as int) <= 0x4000_0000_0000_0000_0000_0000_0000_0000) by (nonlinear_arith)
                    requires
                        -0x8000_0000_0000_0000 <= price as int <= 0x7fff_ffff_ffff_ffff,
                        -0x8000_0000_0000_0000 <= qty as int <= 0x7fff_ffff_ffff_ffff,
                ;
                assert(spec_line_total(m.products, items@[k as int]) == (price as int) * (
                qty as int));
            }
            let line128: i128 = (price as i128) * (qty as i128);
            if line128 > i64::MAX as i128 || line128 < i64::MIN as i128 {
                return Err(StoreError::AmountOverflow);
            }
            let line_total = line128 as i64;
            let ghost t = items@.take(k as int + 1);
            proof {
                assert(t.drop_last() =~= items@.take(k as int));
                assert(t.last() == items@[k as int]);
                assert(spec_cart_total(m.products, t) == total + line_total);
            }
            let total128: i128 = (total as i128) + (line_total as i128);
            if total128 > i64::MAX as i128 || total128 < i64::MIN as i128 {
                return Err(StoreError::AmountOverflow);
            }
            total = total128 as i64;
            lines.push(CartLine {
                cart_item_id: it.id,
                name: self.products[pi].name.clone(),
                quantity: qty,
                line_total,
            });
            proof {
                let t = items@.take(k as int + 1);
                assert(t.drop_last() =~= items@.take(k as int));
                assert(t.last() == items@[k as int]);
            }
            k = k + 1;
        }
        proof {
            assert(items@.take(count as int) =~= items@);
        }
        Ok(CartView { lines, total })
    }
}

} // verus!
