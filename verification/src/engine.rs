//! The conversation engine: one step handler per flow step, a router that
//! picks the handler from the current session state and the inbound event,
//! and the top-level entry point that reads and writes the session table.
//!
//! Every handler is a function from the session payload, the inbound text
//! and the store to the next state, the store mutation and the rendering
//! instructions. Input that fails validation leaves both the state and the
//! store exactly as they were and produces an error prompt.

use vstd::prelude::*;

use crate::numeric::{i64_to_dec_signed, parse_i64, spec_dec_i64, spec_parse_i64, u64_to_dec, dec_digits};
use crate::schema::{
    is_closing_reply, is_command_plain_reply, is_command_prompt_reply, is_plain_message,
    is_plain_reply, is_prompt_reply, Button, CallbackToken, Command, EngineError, Event,
    OutMessage, Reply, State,
};
use crate::session::{state_of, SessionStore};
use crate::store::{
    all_products_present, has_cart, has_cart_item_id, has_product, product_of, spec_add_product,
    spec_add_to_cart, spec_cart_total, spec_line_total, spec_place_order, spec_remove_cart_item,
    spec_remove_product, spec_set_cart_item_quantity, spec_signup, user_cart_id, user_cart_items,
    wf, AddToCartOutcome, CartLine, PlaceOrderOutcome, Store, StoreError, StoreModel, UserRow,
};
use crate::utils::{assert_admin_id, format_price, spec_format_price};

verus! {

/// Who sent the event, as the transport reports it.
pub struct UserInfo {
    pub id: i64,
    pub username: Option<String>,
    pub first_name: String,
    pub last_name: Option<String>,
}

fn copy_opt_string(o: &Option<String>) -> (r: Option<String>)
    ensures
        r == o,
{
    match o {
        Some(s) => Some(s.clone()),
        None => None,
    }
}

/// The command list shown by the help command.
pub fn help() -> (r: Reply)
    ensures
        is_command_plain_reply(
            r,
            "These commands are supported:\n/help — Show help text.\n/start — Create a new account in the store.\n/cancel — Cancel the current dialogue.\n/inventory — View the store's inventory.\n/add — Add a new product.\n/remove — Remove a product.\n/cart — View your cart.\n/orders — View your orders.\n/shop — View the shop web app."@,
        ),
{
    Reply::command_plain(
        "These commands are supported:\n/help — Show help text.\n/start — Create a new account in the store.\n/cancel — Cancel the current dialogue.\n/inventory — View the store's inventory.\n/add — Add a new product.\n/remove — Remove a product.\n/cart — View your cart.\n/orders — View your orders.\n/shop — View the shop web app.",
    )
}

/// Signup: create the account and its cart (each only once), whatever the
/// session was doing.
pub fn start(store: &mut Store, user: &UserInfo) -> (r: Result<Reply, EngineError>)
    requires
        wf(old(store)@),
    ensures
        wf(final(store)@),
        r is Ok <==> (has_cart(old(store)@.carts, user.id) || old(store)@.next_cart_id < i64::MAX),
        r matches Ok(reply) ==> final(store)@ == spec_signup(
            old(store)@,
            UserRow {
                id: user.id,
                username: user.username,
                first_name: user.first_name,
                last_name: user.last_name,
            },
        ) && is_plain_reply(reply, "Welcome to the store!"@),
        r is Err ==> *final(store) == *old(store) && r == Result::<Reply, EngineError>::Err(
            EngineError::StoreFull,
        ),
{
    let username = copy_opt_string(&user.username);
    let first_name = user.first_name.clone();
    let last_name = copy_opt_string(&user.last_name);
    match store.signup(user.id, username, first_name, last_name) {
        Ok(()) => Ok(Reply::plain("Welcome to the store!")),
        Err(_) => Err(EngineError::StoreFull),
    }
}

/// Cancel unconditionally forces the idle state. No store row is touched:
/// flows write only at their final step, so there is nothing to undo.
pub fn cancel() -> (r: (State, Reply))
    ensures
        r.0 == State::Start,
        is_command_plain_reply(r.1, "Cancelled the dialogue."@),
{
    (State::Start, Reply::command_plain("Cancelled the dialogue."))
}

/// A message that no state and no command claims.
pub fn invalid_state() -> (r: Reply)
    ensures
        is_plain_reply(r, "Unable to handle the message. Type /help to see the usage."@),
{
    Reply::plain("Unable to handle the message. Type /help to see the usage.")
}

/// The back button: remove the product details prompt, send nothing.
pub fn back_callback() -> (r: Reply)
    ensures
        !r.delete_incoming,
        r.delete_prompt,
        r.messages@.len() == 0,
{
    Reply { delete_incoming: false, delete_prompt: true, messages: Vec::new() }
}

/// The shop command: reset the session and hand out the web-app link.
pub fn shop() -> (r: (State, Reply))
    ensures
        r.0 == State::Start,
        r.1.delete_incoming,
        !r.1.delete_prompt,
        r.1.messages@.len() == 2,
        is_plain_message(r.1.messages@[0], "Cancelled the dialogue."@),
        r.1.messages@[1].text@ == "Visit the store here:"@,
        r.1.messages@[1].buttons@.len() == 0,
        !r.1.messages@[1].force_reply,
        r.1.messages@[1].web_app matches Some(w) && w.0@ == "Visit Store"@ && w.1@
            == "https://xenon-lumenlimitless.vercel.app/"@,
{
    let first = OutMessage {
        text: String::from_str("Cancelled the dialogue."),
        buttons: Vec::new(),
        web_app: None,
        force_reply: false,
    };
    let second = OutMessage {
        text: String::from_str("Visit the store here:"),
        buttons: Vec::new(),
        web_app: Some(
            (
                String::from_str("Visit Store"),
                String::from_str("https://xenon-lumenlimitless.vercel.app/"),
            ),
        ),
        force_reply: false,
    };
    let mut messages: Vec<OutMessage> = Vec::new();
    messages.push(first);
    messages.push(second);
    (State::Start, Reply { delete_incoming: true, delete_prompt: false, messages })
}

/// Entry of the admin-only add-product flow. On an identity mismatch the
/// flow never starts and the error escapes to be logged.
pub fn add_product(user_id: i64, admin_id: i64) -> (r: Result<(State, Reply), EngineError>)
    ensures
        user_id == admin_id ==> (r matches Ok(p) && p.0 == State::ReceiveProductName
            && is_command_prompt_reply(p.1, "Please, send me the product name."@)),
        user_id != admin_id ==> r == Result::<(State, Reply), EngineError>::Err(
            EngineError::NotAdmin,
        ),
{
    match assert_admin_id(user_id, admin_id) {
        Err(e) => Err(e),
        Ok(()) => Ok(
            (
                State::ReceiveProductName,
                Reply::command_prompt("Please, send me the product name."),
            ),
        ),
    }
}

/// First add-product step: any text is the product name.
pub fn receive_product_name(text: Option<String>) -> (r: (State, Reply))
    ensures
        text matches Some(name) ==> r.0 == (State::ReceiveProductDescription {
            product_name: name,
        }) && is_prompt_reply(r.1, "Please, send me the product description."@),
        text is None ==> r.0 == State::ReceiveProductName && is_prompt_reply(
            r.1,
            "Please, send me the product name."@,
        ),
{
    match text {
        Some(product_name) => (
            State::ReceiveProductDescription { product_name },
            Reply::prompt("Please, send me the product description."),
        ),
        None => (State::ReceiveProductName, Reply::prompt("Please, send me the product name.")),
    }
}

/// Second add-product step: any text is the description.
pub fn receive_product_description(product_name: String, text: Option<String>) -> (r: (
    State,
    Reply,
))
    ensures
        text matches Some(d) ==> r.0 == (State::ReceiveProductPrice {
            product_name,
            product_description: d,
        }) && is_prompt_reply(r.1, "Please, send me the product price in cents."@),
        text is None ==> r.0 == (State::ReceiveProductDescription { product_name })
            && is_prompt_reply(r.1, "Please, send me the product description."@),
{
    match text {
        Some(product_description) => (
            State::ReceiveProductPrice { product_name, product_description },
            Reply::prompt("Please, send me the product price in cents."),
        ),
        None => (
            State::ReceiveProductDescription { product_name },
            Reply::prompt("Please, send me the product description."),
        ),
    }
}

/// Third add-product step: the price, the literal integer number of minor
/// currency units, stored exactly as typed (the display layer divides by
/// 100; nothing is scaled here). Non-numeric text is rejected and
/// re-prompted.
pub fn receive_product_price(
    product_name: String,
    product_description: String,
    text: Option<String>,
) -> (r: (State, Reply))
    ensures
        text is None ==> r.0 == (State::ReceiveProductPrice {
            product_name,
            product_description,
        }) && is_prompt_reply(r.1, "Please, send me the product price."@),
        text matches Some(t) ==> ({
            let po = spec_parse_i64(t@);
            if po is Some {
                r.0 == (State::ReceiveProductImage {
                    product_name,
                    product_description,
                    product_price: po->Some_0,
                }) && is_prompt_reply(r.1, "Please, send me the product image."@)
            } else {
                r.0 == (State::ReceiveProductPrice { product_name, product_description })
                    && is_plain_reply(r.1, "Invalid price. Try again."@)
            }
        }),
{
    match text {
        Some(t) => {
            match parse_i64(t.as_str()) {
                Some(product_price) => (
                    State::ReceiveProductImage {
                        product_name,
                        product_description,
                        product_price,
                    },
                    Reply::prompt("Please, send me the product image."),
                ),
                None => (
                    State::ReceiveProductPrice { product_name, product_description },
                    Reply::plain("Invalid price. Try again."),
                ),
            }
        },
        None => (
            State::ReceiveProductPrice { product_name, product_description },
            Reply::prompt("Please, send me the product price."),
        ),
    }
}

/// Last add-product step: any text is the image reference; the product is
/// persisted with exactly the four collected values, and the flow ends.
pub fn receive_product_image(
    store: &mut Store,
    product_name: String,
    product_description: String,
    product_price: i64,
    text: Option<String>,
) -> (r: Result<(State, Reply), EngineError>)
    requires
        wf(old(store)@),
    ensures
        wf(final(store)@),
        text is None ==> (r matches Ok(p) && p.0 == (State::ReceiveProductImage {
            product_name,
            product_description,
            product_price,
        }) && is_plain_reply(p.1, "Please, send me the product image."@) && *final(store) == *old(
            store,
        )),
        text matches Some(img) ==> ({
            if old(store)@.next_product_id < i64::MAX {
                r matches Ok(p) && p.0 == State::Start && final(store)@ == spec_add_product(
                    old(store)@,
                    product_name,
                    product_description,
                    product_price,
                    img,
                ) && is_plain_reply(
                    p.1,
                    "Product "@ + product_name@ + " added successfully."@,
                )
            } else {
                r == Result::<(State, Reply), EngineError>::Err(EngineError::StoreFull) && *final(store) == *old(store)
            }
        }),
{
    match text {
        Some(product_image) => {
            let confirmation_name = product_name.clone();
            match store.add_product(product_name, product_description, product_price,
                product_image) {
                Ok(_) => {
                    let mut text = String::from_str("Product ");
                    text.append(confirmation_name.as_str());
                    text.append(" added successfully.");
                    proof {
                        assert(text@ =~= "Product "@ + product_name@ + " added successfully."@);
                    }
                    Ok((State::Start, Reply::plain_string(text)))
                },
                Err(_) => Err(EngineError::StoreFull),
            }
        },
        None => Ok(
            (
                State::ReceiveProductImage { product_name, product_description, product_price },
                Reply::plain("Please, send me the product image."),
            ),
        ),
    }
}

/// Entry of the admin-only remove-product flow.
pub fn remove_product(user_id: i64, admin_id: i64) -> (r: Result<(State, Reply), EngineError>)
    ensures
        user_id == admin_id ==> (r matches Ok(p) && p.0 == State::ReceiveProductId
            && is_command_prompt_reply(p.1, "Please, send me the product id."@)),
        user_id != admin_id ==> r == Result::<(State, Reply), EngineError>::Err(
            EngineError::NotAdmin,
        ),
{
    match assert_admin_id(user_id, admin_id) {
        Err(e) => Err(e),
        Ok(()) => Ok(
            (State::ReceiveProductId, Reply::command_prompt("Please, send me the product id.")),
        ),
    }
}

/// Remove-product step: a numeric id of an existing product deletes it and
/// ends the flow; anything else is rejected and the state stays put.
pub fn receive_product_id(store: &mut Store, text: Option<String>) -> (r: (State, Reply))
    requires
        wf(old(store)@),
    ensures
        wf(final(store)@),
        text is None ==> r.0 == State::ReceiveProductId && is_prompt_reply(
            r.1,
            "Please, send me the product id."@,
        ) && *final(store) == *old(store),
        text matches Some(t) ==> ({
            let po = spec_parse_i64(t@);
            if po is None {
                r.0 == State::ReceiveProductId && is_plain_reply(r.1, "Invalid product id."@)
                    && *final(store) == *old(store)
            } else if has_product(old(store)@.products, po->Some_0) {
                r.0 == State::Start && is_plain_reply(r.1, "Product removed successfully."@)
                    && final(store)@ == spec_remove_product(old(store)@, po->Some_0)
            } else {
                r.0 == State::ReceiveProductId && is_plain_reply(r.1, "Invalid product id."@)
                    && *final(store) == *old(store)
            }
        }),
{
    match text {
        Some(t) => {
            match parse_i64(t.as_str()) {
                None => (State::ReceiveProductId, Reply::plain("Invalid product id.")),
                Some(product_id) => {
                    match store.remove_product(product_id) {
                        Err(_) => (State::ReceiveProductId, Reply::plain("Invalid product id.")),
                        Ok(()) => (State::Start, Reply::plain("Product removed successfully.")),
                    }
                },
            }
        },
        None => (State::ReceiveProductId, Reply::prompt("Please, send me the product id.")),
    }
}

/// The remove-item button under the cart listing: start asking for the id.
pub fn remove_cart_item_callback() -> (r: (State, Reply))
    ensures
        r.0 == State::ReceiveRemoveCartItemId,
        is_prompt_reply(r.1, "Please, send me the cart item ID (#)."@),
{
    (State::ReceiveRemoveCartItemId, Reply::prompt("Please, send me the cart item ID (#)."))
}

/// Cart-item removal step: a numeric id of an existing cart item deletes
/// that row and ends the flow. Non-numeric text, or an id that belongs to
/// no row, changes neither the state nor any table.
pub fn receive_remove_cart_item_id(store: &mut Store, text: Option<String>) -> (r: (State, Reply))
    requires
        wf(old(store)@),
    ensures
        wf(final(store)@),
        text is None ==> r.0 == State::ReceiveRemoveCartItemId && is_plain_reply(
            r.1,
            "Please, send me the cart item id."@,
        ) && *final(store) == *old(store),
        text matches Some(t) ==> ({
            let po = spec_parse_i64(t@);
            if po is None {
                r.0 == State::ReceiveRemoveCartItemId && is_plain_reply(
                    r.1,
                    "Invalid cart item id."@,
                ) && *final(store) == *old(store)
            } else if has_cart_item_id(old(store)@.cart_items, po->Some_0) {
                r.0 == State::Start && is_plain_reply(r.1, "Cart item removed successfully."@)
                    && final(store)@ == spec_remove_cart_item(old(store)@, po->Some_0)
            } else {
                r.0 == State::ReceiveRemoveCartItemId && is_plain_reply(
                    r.1,
                    "Invalid cart item id."@,
                ) && *final(store) == *old(store)
            }
        }),
{
    match text {
        Some(t) => {
            match parse_i64(t.as_str()) {
                None => (
                    State::ReceiveRemoveCartItemId,
                    Reply::plain("Invalid cart item id."),
                ),
                Some(cart_item_id) => {
                    match store.remove_cart_item(cart_item_id) {
                        Err(_) => (
                            State::ReceiveRemoveCartItemId,
                            Reply::plain("Invalid cart item id."),
                        ),
                        Ok(()) => (
                            State::Start,
                            Reply::plain("Cart item removed successfully."),
                        ),
                    }
                },
            }
        },
        None => (
            State::ReceiveRemoveCartItemId,
            Reply::plain("Please, send me the cart item id."),
        ),
    }
}

/// The edit-quantity button under the cart listing: start asking for the id.
pub fn edit_cart_item_quantity_callback() -> (r: (State, Reply))
    ensures
        r.0 == State::ReceiveEditCartItemQuantityId,
        is_prompt_reply(r.1, "Please, send me the cart item ID (#)."@),
{
    (
        State::ReceiveEditCartItemQuantityId,
        Reply::prompt("Please, send me the cart item ID (#)."),
    )
}

/// Quantity-edit step one: remember the numeric id and ask for the new
/// quantity; the id is checked against the table at the final step.
pub fn receive_edit_cart_item_quantity_id(text: Option<String>) -> (r: (State, Reply))
    ensures
        text is None ==> r.0 == State::ReceiveEditCartItemQuantityId && is_plain_reply(
            r.1,
            "Please, send me the cart item id."@,
        ),
        text matches Some(t) ==> ({
            let po = spec_parse_i64(t@);
            if po is None {
                r.0 == State::ReceiveEditCartItemQuantityId && is_plain_reply(
                    r.1,
                    "Invalid cart item id."@,
                )
            } else {
                r.0 == (State::ReceiveEditCartItemQuantityAmount { cart_item_id: po->Some_0 })
                    && is_prompt_reply(
                    r.1,
                    "Please, send me the new quantity for cart item #"@ + spec_dec_i64(
                        po->Some_0 as int,
                    ) + "."@,
                )
            }
        }),
{
    match text {
        Some(t) => {
            match parse_i64(t.as_str()) {
                None => (
                    State::ReceiveEditCartItemQuantityId,
                    Reply::plain("Invalid cart item id."),
                ),
                Some(cart_item_id) => {
                    let mut prompt = String::from_str(
                        "Please, send me the new quantity for cart item #",
                    );
                    let digits = i64_to_dec_signed(cart_item_id);
                    prompt.append(digits.as_str());
                    prompt.append(".");
                    proof {
                        assert(prompt@ =~= "Please, send me the new quantity for cart item #"@
                            + spec_dec_i64(cart_item_id as int) + "."@);
                    }
                    (
                        State::ReceiveEditCartItemQuantityAmount { cart_item_id },
                        Reply::prompt_string(prompt),
                    )
                },
            }
        },
        None => (
            State::ReceiveEditCartItemQuantityId,
            Reply::plain("Please, send me the cart item id."),
        ),
    }
}

/// Quantity-edit final step: a numeric quantity of at least one replaces
/// the stored quantity of the remembered row and ends the flow. Zero and
/// negative quantities are rejected like any other invalid input: a cart
/// row always stands for at least one unit.
pub fn receive_edit_cart_item_quantity_amount(
    store: &mut Store,
    cart_item_id: i64,
    text: Option<String>,
) -> (r: (State, Reply))
    requires
        wf(old(store)@),
    ensures
        wf(final(store)@),
        text is None ==> r.0 == (State::ReceiveEditCartItemQuantityAmount { cart_item_id })
            && is_plain_reply(r.1, "Please, send me the quantity."@) && *final(store) == *old(store),
        text matches Some(t) ==> ({
            let po = spec_parse_i64(t@);
            if po is None || po->Some_0 < 1 {
                r.0 == (State::ReceiveEditCartItemQuantityAmount { cart_item_id })
                    && is_plain_reply(r.1, "Invalid quantity."@) && *final(store) == *old(store)
            } else if has_cart_item_id(old(store)@.cart_items, cart_item_id) {
                r.0 == State::Start && is_plain_reply(r.1, "Cart item updated successfully."@)
                    && final(store)@ == spec_set_cart_item_quantity(
                    old(store)@,
                    cart_item_id,
                    po->Some_0,
                )
            } else {
                r.0 == (State::ReceiveEditCartItemQuantityAmount { cart_item_id })
                    && is_plain_reply(r.1, "Invalid cart item id."@) && *final(store) == *old(store)
            }
        }),
{
    match text {
        Some(t) => {
            match parse_i64(t.as_str()) {
                None => (
                    State::ReceiveEditCartItemQuantityAmount { cart_item_id },
                    Reply::plain("Invalid quantity."),
                ),
                Some(quantity) => {
                    match store.set_cart_item_quantity(cart_item_id, quantity) {
                        Err(StoreError::InvalidQuantity) => (
                            State::ReceiveEditCartItemQuantityAmount { cart_item_id },
                            Reply::plain("Invalid quantity."),
                        ),
                        Err(_) => (
                            State::ReceiveEditCartItemQuantityAmount { cart_item_id },
                            Reply::plain("Invalid cart item id."),
                        ),
                        Ok(()) => (
                            State::Start,
                            Reply::plain("Cart item updated successfully."),
                        ),
                    }
                },
            }
        },
        None => (
            State::ReceiveEditCartItemQuantityAmount { cart_item_id },
            Reply::plain("Please, send me the quantity."),
        ),
    }
}

/// The add-to-cart button on a product: insert-or-increment the one row for
/// this (cart, product) pair.
pub fn add_to_cart_callback(store: &mut Store, user_id: i64, product_id: i64) -> (r: Result<
    Reply,
    EngineError,
>)
    requires
        wf(old(store)@),
    ensures
        wf(final(store)@),
        !has_cart(old(store)@.carts, user_id) ==> r == Result::<Reply, EngineError>::Err(
            EngineError::CartNotFound,
        ) && *final(store) == *old(store),
        has_cart(old(store)@.carts, user_id) ==> ({
            let m = old(store)@;
            let cart_id = user_cart_id(m.carts, user_id);
            if crate::store::has_cart_item(m.cart_items, cart_id, product_id) {
                if m.cart_items[crate::store::cart_item_pair_index(
                    m.cart_items,
                    cart_id,
                    product_id,
                )].quantity < i64::MAX {
                    r matches Ok(reply) && is_plain_reply(reply, "Added another to your cart."@)
                        && final(store)@ == spec_add_to_cart(m, user_id, product_id)
                } else {
                    r == Result::<Reply, EngineError>::Err(EngineError::AmountOverflow) && *final(store) == *old(store)
                }
            } else {
                if m.next_cart_item_id < i64::MAX {
                    r matches Ok(reply) && is_plain_reply(reply, "Product added to cart."@)
                        && final(store)@ == spec_add_to_cart(m, user_id, product_id)
                } else {
                    r == Result::<Reply, EngineError>::Err(EngineError::StoreFull) && *final(store)
                        == *old(store)
                }
            }
        }),
{
    match store.add_to_cart(user_id, product_id) {
        Ok(AddToCartOutcome::Incremented) => Ok(Reply::plain("Added another to your cart.")),
        Ok(AddToCartOutcome::Inserted) => Ok(Reply::plain("Product added to cart.")),
        Err(StoreError::CartNotFound) => Err(EngineError::CartNotFound),
        Err(StoreError::AmountOverflow) => Err(EngineError::AmountOverflow),
        Err(_) => Err(EngineError::StoreFull),
    }
}

/// The place-order button: atomically turn the cart's items into an order.
/// An empty cart is a no-op that creates nothing; a user with no cart row
/// at all is an invariant violation that ends the unit of work.
pub fn place_order_callback(store: &mut Store, user_id: i64) -> (r: Result<Reply, EngineError>)
    requires
        wf(old(store)@),
    ensures
        wf(final(store)@),
        !has_cart(old(store)@.carts, user_id) ==> r == Result::<Reply, EngineError>::Err(
            EngineError::CartNotFound,
        ) && *final(store) == *old(store),
        has_cart(old(store)@.carts, user_id) ==> ({
            let m = old(store)@;
            let items = user_cart_items(m.cart_items, m.carts, user_id);
            if items.len() == 0 {
                r matches Ok(reply) && is_plain_reply(reply, "Your cart is empty."@) && *final(store) == *old(store)
            } else if m.next_order_id < i64::MAX {
                r matches Ok(reply) && is_closing_reply(
                    reply,
                    "Order placed successfully. use /orders to view your orders."@,
                ) && final(store)@ == spec_place_order(m, user_id)
            } else {
                r == Result::<Reply, EngineError>::Err(EngineError::StoreFull) && *final(store)
                    == *old(store)
            }
        }),
{
    match store.place_order(user_id) {
        Ok(PlaceOrderOutcome::EmptyCart) => Ok(Reply::plain("Your cart is empty.")),
        Ok(PlaceOrderOutcome::Placed { .. }) => Ok(
            Reply::closing("Order placed successfully. use /orders to view your orders."),
        ),
        Err(StoreError::CartNotFound) => Err(EngineError::CartNotFound),
        Err(_) => Err(EngineError::StoreFull),
    }
}

/// The body of an order listing: one `#id` per order, blank-line separated.
pub open spec fn spec_order_lines(ids: Seq<i64>) -> Seq<char>
    decreases ids.len(),
{
    if ids.len() == 0 {
        Seq::<char>::empty()
    } else if ids.len() == 1 {
        seq!['#'] + spec_dec_i64(ids[0] as int)
    } else {
        spec_order_lines(ids.drop_last()) + seq!['\n', '\n', '#'] + spec_dec_i64(
            ids.last() as int,
        )
    }
}

/// List the caller's orders, most recent first.
pub fn view_orders(store: &Store, user_id: i64) -> (r: Reply)
    requires
        wf(store@),
    ensures
        ({
            let ids = crate::store::user_order_ids(store@, user_id).reverse();
            if ids.len() == 0 {
                is_command_plain_reply(r, "You have no orders."@)
            } else {
                is_command_plain_reply(r, "Your orders:\n\n"@ + spec_order_lines(ids))
            }
        }),
{
    let ids = store.orders_of(user_id);
    let n = ids.len();
    if n == 0 {
        return Reply::command_plain("You have no orders.");
    }
    let mut body = String::new();
    let mut i: usize = 0;
    while i < n
        invariant
            n == ids@.len(),
            0 <= i <= n,
            body@ == spec_order_lines(ids@.take(i as int)),
        decreases n - i,
    {
        if i > 0 {
            body.append("\n\n");
        }
        body.append("#");
        let digits = i64_to_dec_signed(ids[i]);
        body.append(digits.as_str());
        proof {
            reveal_strlit("\n\n");
            reveal_strlit("#");
            let t = ids@.take(i as int + 1);
            assert(t.drop_last() =~= ids@.take(i as int));
            assert(t.last() == ids@[i as int]);
            assert(body@ =~= spec_order_lines(t));
        }
        i = i + 1;
    }
    proof {
        assert(ids@.take(n as int) =~= ids@);
    }
    let mut text = String::from_str("Your orders:\n\n");
    text.append(body.as_str());
    let mut r = Reply::plain_string(text);
    r.delete_incoming = true;
    r
}

/// The product details card: every field of the product, the price rendered
/// for display, and the add-to-cart and back buttons.
pub open spec fn spec_product_details(p: crate::store::Product, product_id: i64) -> Seq<char> {
    "Name: "@ + p.name@ + "\n\nID: "@ + spec_dec_i64(product_id as int) + "\n\nDescription: "@
        + p.description@ + "\n\nPrice: "@ + spec_format_price(p.price as int) + "\n\nImage: "@
        + p.image@
}

/// The view-product button: show one product's details.
pub fn view_product_callback(store: &Store, product_id: i64) -> (r: Reply)
    requires
        wf(store@),
    ensures
        !has_product(store@.products, product_id) ==> is_plain_reply(r, "Product not found."@),
        has_product(store@.products, product_id) ==> ({
            let p = product_of(store@.products, product_id);
            &&& !r.delete_incoming
            &&& !r.delete_prompt
            &&& r.messages@.len() == 1
            &&& r.messages@[0].text@ == spec_product_details(p, product_id)
            &&& !r.messages@[0].force_reply
            &&& r.messages@[0].web_app is None
            &&& r.messages@[0].buttons@.len() == 1
            &&& r.messages@[0].buttons@[0].len() == 2
            &&& r.messages@[0].buttons@[0][0].label@ == "Add to cart"@
            &&& r.messages@[0].buttons@[0][0].token == CallbackToken::AddToCart(product_id)
            &&& r.messages@[0].buttons@[0][1].label@ == "Back"@
            &&& r.messages@[0].buttons@[0][1].token == CallbackToken::Back
        }),
{
    let pi = match store.find_product(product_id) {
        None => {
            return Reply::plain("Product not found.");
        },
        Some(pi) => pi,
    };
    let p = &store.products[pi];
    let mut text = String::from_str("Name: ");
    text.append(p.name.as_str());
    text.append("\n\nID: ");
    let id_digits = i64_to_dec_signed(product_id);
    text.append(id_digits.as_str());
    text.append("\n\nDescription: ");
    text.append(p.description.as_str());
    text.append("\n\nPrice: ");
    let price_text = format_price(p.price);
    text.append(price_text.as_str());
    text.append("\n\nImage: ");
    text.append(p.image.as_str());
    proof {
        assert(text@ =~= spec_product_details(
            product_of(store@.products, product_id),
            product_id,
        ));
    }
    let add = Button { label: String::from_str("Add to cart"), token: CallbackToken::AddToCart(
        product_id,
    ) };
    let back = Button { label: String::from_str("Back"), token: CallbackToken::Back };
    let mut row: Vec<Button> = Vec::new();
    row.push(add);
    row.push(back);
    let mut buttons: Vec<Vec<Button>> = Vec::new();
    buttons.push(row);
    let m = OutMessage { text, buttons, web_app: None, force_reply: false };
    let mut messages: Vec<OutMessage> = Vec::new();
    messages.push(m);
    Reply { delete_incoming: false, delete_prompt: false, messages }
}

/// The inventory listing: one button per product, labeled with its name and
/// carrying its view-product token, chunked two to a row.
pub fn inventory(store: &Store) -> (r: Reply)
    requires
        wf(store@),
    ensures
        store@.products.len() == 0 ==> is_command_plain_reply(r, "The store is empty."@),
        store@.products.len() > 0 ==> ({
            let ps = store@.products;
            let rows = r.messages@[0].buttons@;
            &&& r.delete_incoming
            &&& !r.delete_prompt
            &&& r.messages@.len() == 1
            &&& r.messages@[0].text@ == "Select a product to view more information:"@
            &&& !r.messages@[0].force_reply
            &&& r.messages@[0].web_app is None
            &&& rows.len() == (ps.len() + 1) / 2
            &&& forall|q: int|
                0 <= q < rows.len() ==> (#[trigger] rows[q].len()) == (if 2 * q + 1 < ps.len() {
                    2int
                } else {
                    1int
                })
            &&& forall|i: int|
                0 <= i < ps.len() ==> (#[trigger] rows[i / 2][i % 2]).label == ps[i].name && rows[
                    i / 2
                ][i % 2].token == CallbackToken::ViewProduct(ps[i].id)
        }),
{
    let n = store.products.len();
    if n == 0 {
        return Reply::command_plain("The store is empty.");
    }
    let mut rows: Vec<Vec<Button>> = Vec::new();
    let mut i: usize = 0;
    while i < n
        invariant
            wf(store@),
            n == store@.products.len(),
            0 <= i <= n,
            i % 2 == 0 || i == n,
            rows@.len() == (i + 1) / 2,
            forall|q: int|
                0 <= q < rows@.len() ==> (#[trigger] rows@[q].len()) == (if 2 * q + 1 < i {
                    2int
                } else {
                    1int
                }),
            forall|k: int|
                0 <= k < i ==> (#[trigger] rows@[k / 2][k % 2]).label == store@.products[k].name
                    && rows@[k / 2][k % 2].token == CallbackToken::ViewProduct(
                    store@.products[k].id,
                ),
        decreases n - i,
    {
        let mut row: Vec<Button> = Vec::new();
        let p = &store.products[i];
        row.push(Button {
            label: p.name.clone(),
            token: CallbackToken::ViewProduct(p.id),
        });
        if i + 1 < n {
            let p2 = &store.products[i + 1];
            row.push(Button {
                label: p2.name.clone(),
                token: CallbackToken::ViewProduct(p2.id),
            });
            rows.push(row);
            i = i + 2;
        } else {
            rows.push(row);
            i = n;
        }
    }
    let m = OutMessage {
        text: String::from_str("Select a product to view more information:"),
        buttons: rows,
        web_app: None,
        force_reply: false,
    };
    let mut messages: Vec<OutMessage> = Vec::new();
    messages.push(m);
    Reply { delete_incoming: true, delete_prompt: false, messages }
}

/// The priced line that a cart item contributes to the cart listing.
pub open spec fn spec_line_of(products: Seq<crate::store::Product>, ci: crate::store::CartItem) -> CartLine {
    CartLine {
        cart_item_id: ci.id,
        name: product_of(products, ci.product_id).name,
        quantity: ci.quantity,
        line_total: spec_line_total(products, ci) as i64,
    }
}

/// One rendered line of the cart listing.
pub open spec fn spec_cart_line_text(l: CartLine) -> Seq<char> {
    seq!['#'] + spec_dec_i64(l.cart_item_id as int) + " - "@ + l.name@ + " - x"@ + spec_dec_i64(
        l.quantity as int,
    ) + " - "@ + spec_format_price(l.line_total as int)
}

/// The rendered lines, newline separated.
pub open spec fn spec_cart_lines_text(ls: Seq<CartLine>) -> Seq<char>
    decreases ls.len(),
{
    if ls.len() == 0 {
        Seq::<char>::empty()
    } else if ls.len() == 1 {
        spec_cart_line_text(ls[0])
    } else {
        spec_cart_lines_text(ls.drop_last()) + seq!['\n'] + spec_cart_line_text(ls.last())
    }
}

/// The whole cart listing body.
pub open spec fn spec_cart_text(ls: Seq<CartLine>, total: i64) -> Seq<char> {
    "Your cart("@ + dec_digits(ls.len()) + "):\n\n#ID - name - quantity - price\n\n--------------------------\n\n"@
        + spec_cart_lines_text(ls) + "\n\n--------------------------\n\nTotal: "@
        + spec_format_price(total as int)
}

/// The cart command: list the caller's cart with a priced line per item and
/// the grand total, under the order and edit buttons. An empty cart says
/// so; a missing cart is an invariant violation that ends the unit of work.
pub fn view_cart(store: &Store, user_id: i64) -> (r: Result<Reply, EngineError>)
    requires
        wf(store@),
    ensures
        !has_cart(store@.carts, user_id) ==> r == Result::<Reply, EngineError>::Err(
            EngineError::CartNotFound,
        ),
        has_cart(store@.carts, user_id) ==> ({
            let m = store@;
            let items = user_cart_items(m.cart_items, m.carts, user_id);
            if items.len() == 0 {
                r matches Ok(reply) && is_command_plain_reply(reply, "Your cart is empty."@)
            } else if !all_products_present(m.products, items) {
                r matches Ok(reply) && is_command_plain_reply(reply, "Product not found."@)
            } else if !(crate::store::line_totals_fit(m.products, items)
                && crate::store::prefix_totals_fit(m.products, items)) {
                r == Result::<Reply, EngineError>::Err(EngineError::AmountOverflow)
            } else {
                r matches Ok(reply) && ({
                    let lines = items.map_values(|ci: crate::store::CartItem| spec_line_of(m.products, ci));
                    let total = spec_cart_total(m.products, items) as i64;
                    &&& reply.delete_incoming
                    &&& !reply.delete_prompt
                    &&& reply.messages@.len() == 1
                    &&& reply.messages@[0].text@ == spec_cart_text(lines, total)
                    &&& !reply.messages@[0].force_reply
                    &&& reply.messages@[0].web_app is None
                    &&& reply.messages@[0].buttons@.len() == 2
                    &&& reply.messages@[0].buttons@[0].len() == 1
                    &&& reply.messages@[0].buttons@[0][0].label@ == "Place Order"@
                    &&& reply.messages@[0].buttons@[0][0].token == CallbackToken::PlaceOrder
                    &&& reply.messages@[0].buttons@[1].len() == 2
                    &&& reply.messages@[0].buttons@[1][0].label@ == "Remove Item"@
                    &&& reply.messages@[0].buttons@[1][0].token == CallbackToken::RemoveCartItem
                    &&& reply.messages@[0].buttons@[1][1].label@ == "Edit Quantity"@
                    &&& reply.messages@[0].buttons@[1][1].token
                        == CallbackToken::EditCartItemQuantity
                })
            }
        }),
{
    let ghost m = store@;
    let ghost items = user_cart_items(m.cart_items, m.carts, user_id);
    let view = match store.cart_view(user_id) {
        Err(StoreError::CartNotFound) => {
            return Err(EngineError::CartNotFound);
        },
        Err(StoreError::AmountOverflow) => {
            return Err(EngineError::AmountOverflow);
        },
        Err(_) => {
            return Ok(Reply::command_plain("Product not found."));
        },
        Ok(view) => view,
    };
    let count = view.lines.len();
    if count == 0 {
        return Ok(Reply::command_plain("Your cart is empty."));
    }
    proof {
        assert(view.lines@ =~= items.map_values(|ci: crate::store::CartItem| spec_line_of(
            m.products,
            ci,
        )));
    }
    let mut body = String::new();
    let mut i: usize = 0;
    while i < count
        invariant
            count == view.lines@.len(),
            0 <= i <= count,
            body@ == spec_cart_lines_text(view.lines@.take(i as int)),
        decreases count - i,
    {
        if i > 0 {
            body.append("\n");
        }
        let l = &view.lines[i];
        body.append("#");
        let id_digits = i64_to_dec_signed(l.cart_item_id);
        body.append(id_digits.as_str());
        body.append(" - ");
        body.append(l.name.as_str());
        body.append(" - x");
        let qty_digits = i64_to_dec_signed(l.quantity);
        body.append(qty_digits.as_str());
        body.append(" - ");
        let price_text = format_price(l.line_total);
        body.append(price_text.as_str());
        proof {
            reveal_strlit("\n");
            reveal_strlit("#");
            let t = view.lines@.take(i as int + 1);
            assert(t.drop_last() =~= view.lines@.take(i as int));
            assert(t.last() == view.lines@[i as int]);
            assert(body@ =~= spec_cart_lines_text(t));
        }
        i = i + 1;
    }
    proof {
        assert(view.lines@.take(count as int) =~= view.lines@);
    }
    let mut text = String::from_str("Your cart(");
    let count_digits = u64_to_dec(count as u64);
    text.append(count_digits.as_str());
    text.append("):\n\n#ID - name - quantity - price\n\n--------------------------\n\n");
    text.append(body.as_str());
    text.append("\n\n--------------------------\n\nTotal: ");
    let total_text = format_price(view.total);
    text.append(total_text.as_str());
    proof {
        assert(text@ =~= spec_cart_text(view.lines@, view.total));
    }
    let mut top_row: Vec<Button> = Vec::new();
    top_row.push(Button {
        label: String::from_str("Place Order"),
        token: CallbackToken::PlaceOrder,
    });
    let mut bottom_row: Vec<Button> = Vec::new();
    bottom_row.push(Button {
        label: String::from_str("Remove Item"),
        token: CallbackToken::RemoveCartItem,
    });
    bottom_row.push(Button {
        label: String::from_str("Edit Quantity"),
        token: CallbackToken::EditCartItemQuantity,
    });
    let mut buttons: Vec<Vec<Button>> = Vec::new();
    buttons.push(top_row);
    buttons.push(bottom_row);
    let msg = OutMessage { text, buttons, web_app: None, force_reply: false };
    let mut messages: Vec<OutMessage> = Vec::new();
    messages.push(msg);
    Ok(Reply { delete_incoming: true, delete_prompt: false, messages })
}

/// The closed grammar of button tokens: four bare words, and two words that
/// carry a decimal id. Anything else decodes to nothing and the event is
/// dropped as a no-op.
pub open spec fn spec_parse_callback(s: Seq<char>) -> Option<CallbackToken> {
    if s == "back"@ {
        Some(CallbackToken::Back)
    } else if s == "place_order"@ {
        Some(CallbackToken::PlaceOrder)
    } else if s == "remove_cart_item"@ {
        Some(CallbackToken::RemoveCartItem)
    } else if s == "edit_cart_item_quantity"@ {
        Some(CallbackToken::EditCartItemQuantity)
    } else if s.len() > "view_product "@.len() && s.take("view_product "@.len() as int)
        == "view_product "@ && spec_parse_i64(s.skip("view_product "@.len() as int)) is Some {
        Some(
            CallbackToken::ViewProduct(
                spec_parse_i64(s.skip("view_product "@.len() as int))->Some_0,
            ),
        )
    } else if s.len() > "add_to_cart "@.len() && s.take("add_to_cart "@.len() as int)
        == "add_to_cart "@ && spec_parse_i64(s.skip("add_to_cart "@.len() as int)) is Some {
        Some(
            CallbackToken::AddToCart(spec_parse_i64(s.skip("add_to_cart "@.len() as int))->Some_0),
        )
    } else {
        None
    }
}

/// The token string a [`CallbackToken`] is embedded in.
pub open spec fn spec_render_callback(t: CallbackToken) -> Seq<char> {
    match t {
        CallbackToken::Back => "back"@,
        CallbackToken::PlaceOrder => "place_order"@,
        CallbackToken::RemoveCartItem => "remove_cart_item"@,
        CallbackToken::EditCartItemQuantity => "edit_cart_item_quantity"@,
        CallbackToken::ViewProduct(id) => "view_product "@ + spec_dec_i64(id as int),
        CallbackToken::AddToCart(id) => "add_to_cart "@ + spec_dec_i64(id as int),
    }
}

fn str_eq(a: &str, b: &str) -> (r: bool)
    ensures
        r == (a@ == b@),
{
    let x = a.to_owned();
    let y = b.to_owned();
    x.eq(&y)
}

/// Decode a raw button token once, at the transport boundary.
pub fn parse_callback_data(data: &str) -> (r: Option<CallbackToken>)
    ensures
        r == spec_parse_callback(data@),
{
    if str_eq(data, "back") {
        return Some(CallbackToken::Back);
    }
    if str_eq(data, "place_order") {
        return Some(CallbackToken::PlaceOrder);
    }
    if str_eq(data, "remove_cart_item") {
        return Some(CallbackToken::RemoveCartItem);
    }
    if str_eq(data, "edit_cart_item_quantity") {
        return Some(CallbackToken::EditCartItemQuantity);
    }
    let n = data.unicode_len();
    let vp = "view_product ";
    let kv = vp.unicode_len();
    if n > kv {
        let head = data.substring_char(0, kv);
        if str_eq(head, vp) {
            let rest = data.substring_char(kv, n);
            if let Some(id) = parse_i64(rest) {
                return Some(CallbackToken::ViewProduct(id));
            }
        }
    }
    let ac = "add_to_cart ";
    let ka = ac.unicode_len();
    if n > ka {
        let head = data.substring_char(0, ka);
        if str_eq(head, ac) {
            let rest = data.substring_char(ka, n);
            if let Some(id) = parse_i64(rest) {
                return Some(CallbackToken::AddToCart(id));
            }
        }
    }
    None
}

/// Build the token string that labels a button with `t`.
pub fn render_callback_token(t: &CallbackToken) -> (r: String)
    ensures
        r@ == spec_render_callback(*t),
{
    match t {
        CallbackToken::Back => String::from_str("back"),
        CallbackToken::PlaceOrder => String::from_str("place_order"),
        CallbackToken::RemoveCartItem => String::from_str("remove_cart_item"),
        CallbackToken::EditCartItemQuantity => String::from_str("edit_cart_item_quantity"),
        CallbackToken::ViewProduct(id) => {
            let mut s = String::from_str("view_product ");
            let digits = i64_to_dec_signed(*id);
            s.append(digits.as_str());
            s
        },
        CallbackToken::AddToCart(id) => {
            let mut s = String::from_str("add_to_cart ");
            let digits = i64_to_dec_signed(*id);
            s.append(digits.as_str());
            s
        },
    }
}

/// The result of one engine step: the next session state, the store after
/// the step's mutation (if any), and the failure that ends the unit of work
/// (if one does). On a failure the state and the store are the ones from
/// before the step.
pub struct StepRes {
    pub state: State,
    pub store: StoreModel,
    pub err: Option<EngineError>,
}

/// What one text (or empty) message does in each state: the routing table
/// of the multi-step flows. Validation failures stay in place and mutate
/// nothing; only a flow's final step writes to the store.
pub open spec fn spec_text_step(state: State, text: Option<String>, m: StoreModel) -> StepRes {
    match state {
        State::Start => StepRes { state: State::Start, store: m, err: None },
        State::ReceiveProductName => match text {
            Some(name) => StepRes {
                state: State::ReceiveProductDescription { product_name: name },
                store: m,
                err: None,
            },
            None => StepRes { state, store: m, err: None },
        },
        State::ReceiveProductDescription { product_name } => match text {
            Some(d) => StepRes {
                state: State::ReceiveProductPrice {
                    product_name,
                    product_description: d,
                },
                store: m,
                err: None,
            },
            None => StepRes {
                state: State::ReceiveProductDescription { product_name },
                store: m,
                err: None,
            },
        },
        State::ReceiveProductPrice { product_name, product_description } => match text {
            Some(t) => {
                let po = spec_parse_i64(t@);
                if po is Some {
                    StepRes {
                        state: State::ReceiveProductImage {
                            product_name,
                            product_description,
                            product_price: po->Some_0,
                        },
                        store: m,
                        err: None,
                    }
                } else {
                    StepRes {
                        state: State::ReceiveProductPrice { product_name, product_description },
                        store: m,
                        err: None,
                    }
                }
            },
            None => StepRes {
                state: State::ReceiveProductPrice { product_name, product_description },
                store: m,
                err: None,
            },
        },
        State::ReceiveProductImage { product_name, product_description, product_price } => {
            match text {
                Some(img) => {
                    if m.next_product_id < i64::MAX {
                        StepRes {
                            state: State::Start,
                            store: spec_add_product(
                                m,
                                product_name,
                                product_description,
                                product_price,
                                img,
                            ),
                            err: None,
                        }
                    } else {
                        StepRes {
                            state: State::ReceiveProductImage {
                                product_name,
                                product_description,
                                product_price,
                            },
                            store: m,
                            err: Some(EngineError::StoreFull),
                        }
                    }
                },
                None => StepRes {
                    state: State::ReceiveProductImage {
                        product_name,
                        product_description,
                        product_price,
                    },
                    store: m,
                    err: None,
                },
            }
        },
        State::ReceiveProductId => match text {
            Some(t) => {
                let po = spec_parse_i64(t@);
                if po is Some && has_product(m.products, po->Some_0) {
                    StepRes {
                        state: State::Start,
                        store: spec_remove_product(m, po->Some_0),
                        err: None,
                    }
                } else {
                    StepRes { state: State::ReceiveProductId, store: m, err: None }
                }
            },
            None => StepRes { state: State::ReceiveProductId, store: m, err: None },
        },
        State::ReceiveRemoveCartItemId => match text {
            Some(t) => {
                let po = spec_parse_i64(t@);
                if po is Some && has_cart_item_id(m.cart_items, po->Some_0) {
                    StepRes {
                        state: State::Start,
                        store: spec_remove_cart_item(m, po->Some_0),
                        err: None,
                    }
                } else {
                    StepRes { state: State::ReceiveRemoveCartItemId, store: m, err: None }
                }
            },
            None => StepRes { state: State::ReceiveRemoveCartItemId, store: m, err: None },
        },
        State::ReceiveEditCartItemQuantityId => match text {
            Some(t) => {
                let po = spec_parse_i64(t@);
                if po is Some {
                    StepRes {
                        state: State::ReceiveEditCartItemQuantityAmount {
                            cart_item_id: po->Some_0,
                        },
                        store: m,
                        err: None,
                    }
                } else {
                    StepRes { state: State::ReceiveEditCartItemQuantityId, store: m, err: None }
                }
            },
            None => StepRes { state: State::ReceiveEditCartItemQuantityId, store: m, err: None },
        },
        State::ReceiveEditCartItemQuantityAmount { cart_item_id } => match text {
            Some(t) => {
                let po = spec_parse_i64(t@);
                if po is Some && po->Some_0 >= 1 && has_cart_item_id(m.cart_items, cart_item_id) {
                    StepRes {
                        state: State::Start,
                        store: spec_set_cart_item_quantity(m, cart_item_id, po->Some_0),
                        err: None,
                    }
                } else {
                    StepRes {
                        state: State::ReceiveEditCartItemQuantityAmount { cart_item_id },
                        store: m,
                        err: None,
                    }
                }
            },
            None => StepRes {
                state: State::ReceiveEditCartItemQuantityAmount { cart_item_id },
                store: m,
                err: None,
            },
        },
    }
}

/// What one inbound event does: the complete transition function of the
/// conversation engine over the store model.
pub open spec fn spec_step(
    state: State,
    event: Event,
    m: StoreModel,
    user: UserInfo,
    admin_id: i64,
) -> StepRes {
    match event {
        Event::Command { command, text } => match command {
            Command::Help => if state is Start {
                StepRes { state, store: m, err: None }
            } else {
                spec_text_step(state, Some(text), m)
            },
            Command::Start => if state is Start {
                if has_cart(m.carts, user.id) || m.next_cart_id < i64::MAX {
                    StepRes {
                        state,
                        store: spec_signup(
                            m,
                            UserRow {
                                id: user.id,
                                username: user.username,
                                first_name: user.first_name,
                                last_name: user.last_name,
                            },
                        ),
                        err: None,
                    }
                } else {
                    StepRes { state, store: m, err: Some(EngineError::StoreFull) }
                }
            } else {
                spec_text_step(state, Some(text), m)
            },
            Command::Cancel => StepRes { state: State::Start, store: m, err: None },
            Command::Inventory => StepRes { state, store: m, err: None },
            Command::Add => if user.id == admin_id {
                StepRes { state: State::ReceiveProductName, store: m, err: None }
            } else {
                StepRes { state, store: m, err: Some(EngineError::NotAdmin) }
            },
            Command::Remove => if user.id == admin_id {
                StepRes { state: State::ReceiveProductId, store: m, err: None }
            } else {
                StepRes { state, store: m, err: Some(EngineError::NotAdmin) }
            },
            Command::Cart => if !has_cart(m.carts, user.id) {
                StepRes { state, store: m, err: Some(EngineError::CartNotFound) }
            } else {
                let items = user_cart_items(m.cart_items, m.carts, user.id);
                if all_products_present(m.products, items) && !(crate::store::line_totals_fit(
                    m.products,
                    items,
                ) && crate::store::prefix_totals_fit(m.products, items)) {
                    StepRes { state, store: m, err: Some(EngineError::AmountOverflow) }
                } else {
                    StepRes { state, store: m, err: None }
                }
            },
            Command::Orders => StepRes { state, store: m, err: None },
            Command::Shop => StepRes { state: State::Start, store: m, err: None },
        },
        Event::Text(t) => spec_text_step(state, Some(t), m),
        Event::EmptyMessage => spec_text_step(state, None, m),
        Event::Callback(data) => match spec_parse_callback(data@) {
            None => StepRes { state, store: m, err: None },
            Some(CallbackToken::Back) => StepRes { state, store: m, err: None },
            Some(CallbackToken::ViewProduct(_)) => StepRes { state, store: m, err: None },
            Some(CallbackToken::RemoveCartItem) => StepRes {
                state: State::ReceiveRemoveCartItemId,
                store: m,
                err: None,
            },
            Some(CallbackToken::EditCartItemQuantity) => StepRes {
                state: State::ReceiveEditCartItemQuantityId,
                store: m,
                err: None,
            },
            Some(CallbackToken::AddToCart(pid)) => if !has_cart(m.carts, user.id) {
                StepRes { state, store: m, err: Some(EngineError::CartNotFound) }
            } else {
                let cart_id = user_cart_id(m.carts, user.id);
                if crate::store::has_cart_item(m.cart_items, cart_id, pid) {
                    if m.cart_items[crate::store::cart_item_pair_index(
                        m.cart_items,
                        cart_id,
                        pid,
                    )].quantity < i64::MAX {
                        StepRes { state, store: spec_add_to_cart(m, user.id, pid), err: None }
                    } else {
                        StepRes { state, store: m, err: Some(EngineError::AmountOverflow) }
                    }
                } else {
                    if m.next_cart_item_id < i64::MAX {
                        StepRes { state, store: spec_add_to_cart(m, user.id, pid), err: None }
                    } else {
                        StepRes { state, store: m, err: Some(EngineError::StoreFull) }
                    }
                }
            },
            Some(CallbackToken::PlaceOrder) => if !has_cart(m.carts, user.id) {
                StepRes { state, store: m, err: Some(EngineError::CartNotFound) }
            } else {
                let items = user_cart_items(m.cart_items, m.carts, user.id);
                if items.len() == 0 {
                    StepRes { state, store: m, err: None }
                } else if m.next_order_id < i64::MAX {
                    StepRes { state, store: spec_place_order(m, user.id), err: None }
                } else {
                    StepRes { state, store: m, err: Some(EngineError::StoreFull) }
                }
            },
        },
    }
}

/// Route a text (or empty) message to the step handler the current state
/// selects.
fn text_step(store: &mut Store, state: State, text: Option<String>) -> (r: Result<
    (State, Reply),
    EngineError,
>)
    requires
        wf(old(store)@),
    ensures
        wf(final(store)@),
        ({
            let res = spec_text_step(state, text, old(store)@);
            &&& (r matches Ok(p) ==> p.0 == res.state && final(store)@ == res.store && res.err
                is None)
            &&& (r matches Err(e) ==> res.err == Some(e) && *final(store) == *old(store))
        }),
        (text matches Some(t) && state == State::ReceiveRemoveCartItemId && spec_parse_i64(
            t@,
        ) is None) ==> (r matches Ok(p) && is_plain_reply(p.1, "Invalid cart item id."@)),
{
    match state {
        State::Start => Ok((State::Start, invalid_state())),
        State::ReceiveProductName => Ok(receive_product_name(text)),
        State::ReceiveProductDescription { product_name } => Ok(
            receive_product_description(product_name, text),
        ),
        State::ReceiveProductPrice { product_name, product_description } => Ok(
            receive_product_price(product_name, product_description, text),
        ),
        State::ReceiveProductImage { product_name, product_description, product_price } => {
            receive_product_image(store, product_name, product_description, product_price, text)
        },
        State::ReceiveProductId => Ok(receive_product_id(store, text)),
        State::ReceiveRemoveCartItemId => Ok(receive_remove_cart_item_id(store, text)),
        State::ReceiveEditCartItemQuantityId => Ok(receive_edit_cart_item_quantity_id(text)),
        State::ReceiveEditCartItemQuantityAmount { cart_item_id } => Ok(
            receive_edit_cart_item_quantity_amount(store, cart_item_id, text),
        ),
    }
}

/// Route one inbound event to exactly one handler, selected by the current
/// session state and the event, and return the next state with the
/// rendering instructions. The session table itself is read and written by
/// [`handle_event`].
pub fn schema(store: &mut Store, state: State, event: Event, user: &UserInfo, admin_id: i64) -> (r:
    Result<(State, Reply), EngineError>)
    requires
        wf(old(store)@),
    ensures
        wf(final(store)@),
        ({
            let res = spec_step(state, event, old(store)@, *user, admin_id);
            &&& (r matches Ok(p) ==> p.0 == res.state && final(store)@ == res.store && res.err
                is None)
            &&& (r matches Err(e) ==> res.err == Some(e) && *final(store) == *old(store))
        }),
        event matches Event::Command { command: Command::Cancel, .. } ==> (r matches Ok(p)
            && is_command_plain_reply(p.1, "Cancelled the dialogue."@)),
        (event matches Event::Command { command: Command::Add, .. } && user.id == admin_id) ==> (
        r matches Ok(p) && is_command_prompt_reply(p.1, "Please, send me the product name."@)),
        (event matches Event::Command { command: Command::Remove, .. } && user.id == admin_id)
            ==> (r matches Ok(p) && is_command_prompt_reply(
            p.1,
            "Please, send me the product id."@,
        )),
        (event matches Event::Text(t) && state == State::ReceiveRemoveCartItemId && spec_parse_i64(
            t@,
        ) is None) ==> (r matches Ok(p) && is_plain_reply(p.1, "Invalid cart item id."@)),
{
    match event {
        Event::Command { command, text } => match command {
            Command::Help => match state {
                State::Start => Ok((State::Start, help())),
                other => text_step(store, other, Some(text)),
            },
            Command::Start => match state {
                State::Start => match start(store, user) {
                    Ok(reply) => Ok((State::Start, reply)),
                    Err(e) => Err(e),
                },
                other => text_step(store, other, Some(text)),
            },
            Command::Cancel => Ok(cancel()),
            Command::Inventory => Ok((state, inventory(store))),
            Command::Add => match add_product(user.id, admin_id) {
                Ok(p) => Ok(p),
                Err(e) => Err(e),
            },
            Command::Remove => match remove_product(user.id, admin_id) {
                Ok(p) => Ok(p),
                Err(e) => Err(e),
            },
            Command::Cart => match view_cart(store, user.id) {
                Ok(reply) => Ok((state, reply)),
                Err(e) => Err(e),
            },
            Command::Orders => Ok((state, view_orders(store, user.id))),
            Command::Shop => Ok(shop()),
        },
        Event::Text(t) => text_step(store, state, Some(t)),
        Event::EmptyMessage => text_step(store, state, None),
        Event::Callback(data) => match parse_callback_data(data.as_str()) {
            None => Ok((state, Reply::none())),
            Some(CallbackToken::Back) => Ok((state, back_callback())),
            Some(CallbackToken::ViewProduct(pid)) => Ok(
                (state, view_product_callback(store, pid)),
            ),
            Some(CallbackToken::RemoveCartItem) => Ok(remove_cart_item_callback()),
            Some(CallbackToken::EditCartItemQuantity) => Ok(edit_cart_item_quantity_callback()),
            Some(CallbackToken::AddToCart(pid)) => match add_to_cart_callback(
                store,
                user.id,
                pid,
            ) {
                Ok(reply) => Ok((state, reply)),
                Err(e) => Err(e),
            },
            Some(CallbackToken::PlaceOrder) => match place_order_callback(store, user.id) {
                Ok(reply) => Ok((state, reply)),
                Err(e) => Err(e),
            },
        },
    }
}

/// The top-level entry point for one unit of work: look up the caller's
/// session state, run one step, store the next state. On a failure the
/// session is left as it was; no other user's session is ever touched.
pub fn handle_event(
    store: &mut Store,
    sessions: &mut SessionStore,
    user: &UserInfo,
    event: Event,
    admin_id: i64,
) -> (r: Result<Reply, EngineError>)
    requires
        wf(old(store)@),
        old(sessions).wf(),
    ensures
        wf(final(store)@),
        final(sessions).wf(),
        ({
            let res = spec_step(
                state_of(old(sessions).entries@, user.id),
                event,
                old(store)@,
                *user,
                admin_id,
            );
            &&& (r is Ok ==> state_of(final(sessions).entries@, user.id) == res.state && final(store)@ == res.store && res.err is None)
            &&& (r matches Err(e) ==> res.err == Some(e) && *final(store) == *old(store) && *final(sessions) == *old(sessions))
            &&& forall|u: i64|
                u != user.id ==> state_of(final(sessions).entries@, u) == state_of(
                    old(sessions).entries@,
                    u,
                )
        }),
        event matches Event::Command { command: Command::Cancel, .. } ==> (r matches Ok(reply)
            && is_command_plain_reply(reply, "Cancelled the dialogue."@)),
        (event matches Event::Text(t) && state_of(old(sessions).entries@, user.id)
            == State::ReceiveRemoveCartItemId && spec_parse_i64(t@) is None) ==> (r matches Ok(
        reply,
        ) && is_plain_reply(reply, "Invalid cart item id."@)),
{
    let state = sessions.get(user.id);
    match schema(store, state, event, user, admin_id) {
        Ok((next, reply)) => {
            sessions.set(user.id, next);
            Ok(reply)
        },
        Err(e) => Err(e),
    }
}

} // verus!
