//! The library's laws: properties that relate several operations, stated
//! over the same spec functions the operations' own contracts use, and
//! proved once and for all.

use vstd::prelude::*;

use crate::engine::{spec_parse_callback, spec_render_callback, spec_step, UserInfo};
use crate::numeric::{
    all_digits, dec_digits, digits_val, is_digit, spec_dec_i64, spec_parse_i64,
};
use crate::schema::{CallbackToken, Command, Event, State};
use crate::store::{
    has_cart, has_cart_item, has_cart_item_id, lemma_filter_push, spec_add_to_cart,
    spec_place_order, user_cart_id, user_cart_items, wf, CartItem, Order, OrderItem, Product,
    StoreModel,
};

verus! {

broadcast use vstd::string::group_string_axioms;

/// Through the add-product flow, every valid input sequence persists a
/// product whose four fields are exactly the values supplied, with the price
/// stored as the literal integer the user typed — no scaling — and every
/// other table untouched; the session ends idle.
pub proof fn add_product_flow_persists_exact_fields(
    m: StoreModel,
    user: UserInfo,
    admin_id: i64,
    cmd_text: String,
    name: String,
    description: String,
    price_text: String,
    image: String,
)
    requires
        wf(m),
        user.id == admin_id,
        m.next_product_id < i64::MAX,
        spec_parse_i64(price_text@) is Some,
    ensures
        ({
            let s1 = spec_step(
                State::Start,
                Event::Command { command: Command::Add, text: cmd_text },
                m,
                user,
                admin_id,
            );
            let s2 = spec_step(s1.state, Event::Text(name), s1.store, user, admin_id);
            let s3 = spec_step(s2.state, Event::Text(description), s2.store, user, admin_id);
            let s4 = spec_step(s3.state, Event::Text(price_text), s3.store, user, admin_id);
            let s5 = spec_step(s4.state, Event::Text(image), s4.store, user, admin_id);
            &&& s1.err is None && s2.err is None && s3.err is None && s4.err is None && s5.err
                is None
            &&& s1.store == m && s2.store == m && s3.store == m && s4.store == m
            &&& s5.state == State::Start
            &&& s5.store.products == m.products.push(
                Product {
                    id: m.next_product_id as i64,
                    name,
                    description,
                    price: spec_parse_i64(price_text@)->Some_0,
                    image,
                },
            )
            &&& s5.store.users == m.users
            &&& s5.store.carts == m.carts
            &&& s5.store.cart_items == m.cart_items
            &&& s5.store.orders == m.orders
            &&& s5.store.order_items == m.order_items
        }),
{
}

/// Cancelling, in any state whatsoever, returns the session to idle and
/// writes nothing: every table of the store is exactly what it was.
pub proof fn cancel_resets_session_and_writes_nothing(
    state: State,
    m: StoreModel,
    user: UserInfo,
    admin_id: i64,
    text: String,
)
    ensures
        ({
            let res = spec_step(
                state,
                Event::Command { command: Command::Cancel, text },
                m,
                user,
                admin_id,
            );
            res.state == State::Start && res.store == m && res.err is None
        }),
{
}

/// While waiting for a cart item id to remove, text that is not a number,
/// or a number that matches no row, leaves the session state and the store
/// exactly as they were.
pub proof fn invalid_remove_cart_item_input_is_inert(
    m: StoreModel,
    user: UserInfo,
    admin_id: i64,
    t: String,
)
    requires
        spec_parse_i64(t@) is None || !has_cart_item_id(m.cart_items, spec_parse_i64(t@)->Some_0),
    ensures
        ({
            let res = spec_step(
                State::ReceiveRemoveCartItemId,
                Event::Text(t),
                m,
                user,
                admin_id,
            );
            res.state == State::ReceiveRemoveCartItemId && res.store == m && res.err is None
        }),
{
}

/// Filtering splits a sequence: the elements that pass and the elements
/// that fail account for all of it.
proof fn lemma_filter_partition<A>(s: Seq<A>, pred: spec_fn(A) -> bool, negpred: spec_fn(A) -> bool)
    requires
        forall|x: A| #[trigger] negpred(x) == !pred(x),
    ensures
        s.filter(pred).len() + s.filter(negpred).len() == s.len(),
    decreases s.len(),
{
    reveal(Seq::filter);
    if s.len() > 0 {
        lemma_filter_partition(s.drop_last(), pred, negpred);
    }
}

/// Adding the same product to the same user's cart twice, in the engine's
/// per-user serial order, converges to a single cart item row of quantity
/// two — never two rows — whatever else the store holds.
pub proof fn add_to_cart_twice_one_row_quantity_two(m: StoreModel, user_id: i64, product_id: i64)
    requires
        wf(m),
        has_cart(m.carts, user_id),
        !has_cart_item(m.cart_items, user_cart_id(m.carts, user_id), product_id),
        m.next_cart_item_id < i64::MAX,
    ensures
        ({
            let cart_id = user_cart_id(m.carts, user_id);
            let m2 = spec_add_to_cart(spec_add_to_cart(m, user_id, product_id), user_id,
            product_id);
            &&& m2.cart_items == m.cart_items.push(
                CartItem { id: m.next_cart_item_id as i64, cart_id, product_id, quantity: 2 },
            )
            &&& m2.cart_items.filter(
                |ci: CartItem| ci.cart_id == cart_id && ci.product_id == product_id,
            ).len() == 1
        }),
{
    let cart_id = user_cart_id(m.carts, user_id);
    let item1 = CartItem { id: m.next_cart_item_id as i64, cart_id, product_id, quantity: 1 };
    let item2 = CartItem { id: m.next_cart_item_id as i64, cart_id, product_id, quantity: 2 };
    let m1 = spec_add_to_cart(m, user_id, product_id);
    assert(m1.carts == m.carts);
    assert(m1.cart_items == m.cart_items.push(item1));
    assert(user_cart_id(m1.carts, user_id) == cart_id);
    let n = m.cart_items.len() as int;
    assert(m1.cart_items[n] == item1);
    assert(m1.cart_items[n].cart_id == cart_id && m1.cart_items[n].product_id == product_id);
    assert(has_cart_item(m1.cart_items, cart_id, product_id));
    let j = crate::store::cart_item_pair_index(m1.cart_items, cart_id, product_id);
    assert(0 <= j < m1.cart_items.len() && m1.cart_items[j].cart_id == cart_id
        && m1.cart_items[j].product_id == product_id);
    assert(j == n) by {
        if j < n {
            assert(m1.cart_items[j] == m.cart_items[j]);
        }
    }
    let m2 = spec_add_to_cart(m1, user_id, product_id);
    assert(m2.cart_items == m1.cart_items.update(n, item2));
    assert(m2.cart_items =~= m.cart_items.push(item2));
    let pair = |ci: CartItem| ci.cart_id == cart_id && ci.product_id == product_id;
    lemma_filter_push(m.cart_items, pair, item2);
    m.cart_items.lemma_all_neg_filter_empty(pair);
    assert(m.cart_items.filter(pair).len() == 0);
    assert(m2.cart_items.filter(pair) =~= m.cart_items.filter(pair).push(item2));
}

/// Checkout on a non-empty cart of `n` items creates exactly one order row,
/// appends exactly `n` order item rows snapshot-equal to the cart items at
/// call time, and deletes exactly those `n` cart items — and a second
/// checkout right after finds the cart empty and is a no-op that creates no
/// order.
pub proof fn place_order_snapshots_and_empties(
    m: StoreModel,
    state: State,
    user: UserInfo,
    admin_id: i64,
    data: String,
)
    requires
        wf(m),
        has_cart(m.carts, user.id),
        user_cart_items(m.cart_items, m.carts, user.id).len() > 0,
        m.next_order_id < i64::MAX,
        spec_parse_callback(data@) == Some(CallbackToken::PlaceOrder),
    ensures
        ({
            let items = user_cart_items(m.cart_items, m.carts, user.id);
            let n = items.len() as int;
            let m1 = spec_place_order(m, user.id);
            &&& m1.orders == m.orders.push(Order { id: m.next_order_id as i64, user_id: user.id })
            &&& m1.order_items.len() == m.order_items.len() + n
            &&& forall|i: int|
                0 <= i < n ==> m1.order_items[m.order_items.len() + i] == (OrderItem {
                    order_id: m.next_order_id as i64,
                    product_id: items[i].product_id,
                    quantity: items[i].quantity,
                })
            &&& m1.cart_items.len() == m.cart_items.len() - n
            &&& user_cart_items(m1.cart_items, m1.carts, user.id).len() == 0
            &&& ({
                let again = spec_step(state, Event::Callback(data), m1, user, admin_id);
                again.store == m1 && again.err is None && again.state == state
            })
        }),
{
    let cart_id = user_cart_id(m.carts, user.id);
    let mine = |ci: CartItem| ci.cart_id == cart_id;
    let others = |ci: CartItem| ci.cart_id != cart_id;
    let items = user_cart_items(m.cart_items, m.carts, user.id);
    let m1 = spec_place_order(m, user.id);
    assert(m1.carts == m.carts);
    assert(user_cart_id(m1.carts, user.id) == cart_id);
    lemma_filter_partition(m.cart_items, mine, others);
    assert(m1.cart_items == m.cart_items.filter(others));
    assert forall|i: int| 0 <= i < m1.cart_items.len() implies !mine(#[trigger] m1.cart_items[i]) by {
        m.cart_items.lemma_filter_pred(others, i);
    }
    let mine1 = |ci: CartItem| ci.cart_id == user_cart_id(m1.carts, user.id);
    assert(mine1 == mine);
    m1.cart_items.lemma_all_neg_filter_empty(mine);
    assert(user_cart_items(m1.cart_items, m1.carts, user.id) == m1.cart_items.filter(mine));
    assert(user_cart_items(m1.cart_items, m1.carts, user.id).len() == 0);
}

proof fn lemma_dec_digits_are_digits(n: nat)
    ensures
        dec_digits(n).len() >= 1,
        all_digits(dec_digits(n)),
        digits_val(dec_digits(n)) == n,
    decreases n,
{
    if n < 10 {
        let s = dec_digits(n);
        assert(s == seq![crate::numeric::digit_char(n as int)]);
        assert(is_digit(s[0]));
        assert(s.drop_last() =~= Seq::<char>::empty());
        assert(digits_val(Seq::<char>::empty()) == 0);
        assert(digits_val(s) == crate::numeric::digit_val(s.last()));
        assert(crate::numeric::digit_val(crate::numeric::digit_char(n as int)) == n);
    } else {
        lemma_dec_digits_are_digits(n / 10);
        let s = dec_digits(n);
        let d = dec_digits(n / 10);
        assert(s == d.push(crate::numeric::digit_char((n % 10) as int)));
        assert(s.drop_last() =~= d);
        assert(is_digit(s.last()));
        assert forall|i: int| 0 <= i < s.len() implies is_digit(s[i]) by {
            if i < s.len() - 1 {
                assert(s[i] == d[i]);
            }
        }
        assert(digits_val(s) == 10 * digits_val(d) + (n % 10));
    }
}

/// The canonical decimal numeral of any 64-bit value parses back to exactly
/// that value.
pub proof fn decimal_round_trip(v: i64)
    ensures
        spec_parse_i64(spec_dec_i64(v as int)) == Some(v),
{
    if v >= 0 {
        let s = dec_digits(v as nat);
        lemma_dec_digits_are_digits(v as nat);
        assert(is_digit(s[0]));
        assert(s[0] != '-' && s[0] != '+') by {
            assert(48 <= s[0] as u32 <= 57);
            assert('-' as u32 == 45 && '+' as u32 == 43);
        }
        assert(digits_val(s) <= 0x7fff_ffff_ffff_ffff);
        assert(spec_parse_i64(s) == Some(v));
    } else {
        let mag = (-(v as int)) as nat;
        let d = dec_digits(mag);
        lemma_dec_digits_are_digits(mag);
        let s = spec_dec_i64(v as int);
        assert(s == seq!['-'] + d);
        assert(s[0] == '-');
        assert(s.subrange(1, s.len() as int) =~= d);
        assert(digits_val(d) == mag <= 0x8000_0000_0000_0000);
        assert(spec_parse_i64(s) == Some(v));
    }
}

/// Every button token survives the render/decode round trip: the engine
/// reads back exactly the token it embedded in the button.
pub proof fn callback_token_round_trip(t: CallbackToken)
    ensures
        spec_parse_callback(spec_render_callback(t)) == Some(t),
{
    reveal_strlit("back");
    reveal_strlit("place_order");
    reveal_strlit("remove_cart_item");
    reveal_strlit("edit_cart_item_quantity");
    reveal_strlit("view_product ");
    reveal_strlit("add_to_cart ");
    let s = spec_render_callback(t);
    match t {
        CallbackToken::Back => {
        },
        CallbackToken::PlaceOrder => {
            assert(s != "back"@) by {
                assert(s.len() != "back"@.len());
            }
        },
        CallbackToken::RemoveCartItem => {
            assert(s.len() == 16 && "back"@.len() == 4 && "place_order"@.len() == 11);
        },
        CallbackToken::EditCartItemQuantity => {
            assert(s.len() == 23);
            assert("back"@.len() == 4 && "place_order"@.len() == 11 && "remove_cart_item"@.len()
                == 16);
        },
        CallbackToken::ViewProduct(id) => {
            let d = spec_dec_i64(id as int);
            assert(d.len() >= 1) by {
                if id >= 0 {
                    lemma_dec_digits_are_digits(id as nat);
                } else {
                    lemma_dec_digits_are_digits((-(id as int)) as nat);
                }
            }
            assert(s == "view_product "@ + d);
            assert(s.len() > 13);
            assert(s[0] == 'v');
            assert(s != "back"@ && s != "place_order"@ && s != "remove_cart_item"@ && s
                != "edit_cart_item_quantity"@) by {
                assert("back"@[0] == 'b' && "place_order"@[0] == 'p' && "remove_cart_item"@[0]
                    == 'r' && "edit_cart_item_quantity"@[0] == 'e');
            }
            assert(s.take(13) =~= "view_product "@);
            assert(s.skip(13) =~= d);
            decimal_round_trip(id);
        },
        CallbackToken::AddToCart(id) => {
            let d = spec_dec_i64(id as int);
            assert(d.len() >= 1) by {
                if id >= 0 {
                    lemma_dec_digits_are_digits(id as nat);
                } else {
                    lemma_dec_digits_are_digits((-(id as int)) as nat);
                }
            }
            assert(s == "add_to_cart "@ + d);
            assert(s.len() > 12);
            assert(s[0] == 'a');
            assert(s != "back"@ && s != "place_order"@ && s != "remove_cart_item"@ && s
                != "edit_cart_item_quantity"@) by {
                assert("back"@[0] == 'b' && "place_order"@[0] == 'p' && "remove_cart_item"@[0]
                    == 'r' && "edit_cart_item_quantity"@[0] == 'e');
            }
            assert(!(s.len() > 13 && s.take(13) == "view_product "@)) by {
                if s.len() > 13 {
                    assert(s.take(13)[0] == 'a' && "view_product "@[0] == 'v');
                }
            }
            assert(s.take(12) =~= "add_to_cart "@);
            assert(s.skip(12) =~= d);
            decimal_round_trip(id);
        },
    }
}

} // verus!
