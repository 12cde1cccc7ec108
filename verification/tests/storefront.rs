use storebot::engine::{handle_event, UserInfo};
use storebot::schema::{CallbackToken, Command, Event, State};
use storebot::session::SessionStore;
use storebot::store::{AddToCartOutcome, PlaceOrderOutcome, Store, StoreError};
use storebot::utils::assert_admin_id;

const ADMIN: i64 = 7;

fn admin() -> UserInfo {
    UserInfo { id: ADMIN, username: Some("admin".to_string()), first_name: "Ada".to_string(), last_name: None }
}

fn customer() -> UserInfo {
    UserInfo { id: 100, username: None, first_name: "Kim".to_string(), last_name: Some("Lee".to_string()) }
}

fn cmd(c: Command, text: &str) -> Event {
    Event::Command { command: c, text: text.to_string() }
}

fn text(t: &str) -> Event {
    Event::Text(t.to_string())
}

/// Runs the whole add-product flow with the given inputs.
fn add_product_flow(store: &mut Store, sessions: &mut SessionStore, name: &str, desc: &str, price: &str, image: &str) {
    let who = admin();
    handle_event(store, sessions, &who, cmd(Command::Add, "/add"), ADMIN).unwrap();
    handle_event(store, sessions, &who, text(name), ADMIN).unwrap();
    handle_event(store, sessions, &who, text(desc), ADMIN).unwrap();
    handle_event(store, sessions, &who, text(price), ADMIN).unwrap();
    handle_event(store, sessions, &who, text(image), ADMIN).unwrap();
}

#[test]
fn test_assert_admin_id() {
    let admin_id = ADMIN;

    assert!(assert_admin_id(admin_id, admin_id).is_ok());

    assert!(assert_admin_id(admin_id + 1, admin_id).is_err());
}

#[test]
fn add_flow_persists_exact_fields() {
    // "/add" -> "Widget" -> "A fine widget" -> "500" -> "img.png"
    let mut store = Store::new();
    let mut sessions = SessionStore::new();
    add_product_flow(&mut store, &mut sessions, "Widget", "A fine widget", "500", "img.png");
    assert_eq!(store.products.len(), 1);
    assert_eq!(store.products[0].id, 1);
    assert_eq!(store.products[0].name, "Widget");
    assert_eq!(store.products[0].description, "A fine widget");
    assert_eq!(store.products[0].price, 500);
    assert_eq!(store.products[0].image, "img.png");
    assert!(matches!(sessions.get(ADMIN), State::Start));
    // the displayed price renders as $5.00
    assert_eq!(storebot::utils::format_price(500), "$5.00");
}

#[test]
fn add_flow_rejects_bad_price_and_reprompts() {
    let mut store = Store::new();
    let mut sessions = SessionStore::new();
    let who = admin();
    handle_event(&mut store, &mut sessions, &who, cmd(Command::Add, "/add"), ADMIN).unwrap();
    handle_event(&mut store, &mut sessions, &who, text("Widget"), ADMIN).unwrap();
    handle_event(&mut store, &mut sessions, &who, text("desc"), ADMIN).unwrap();
    let r = handle_event(&mut store, &mut sessions, &who, text("five hundred"), ADMIN).unwrap();
    assert_eq!(r.messages[0].text, "Invalid price. Try again.");
    assert!(matches!(sessions.get(ADMIN), State::ReceiveProductPrice { .. }));
    let r = handle_event(&mut store, &mut sessions, &who, text("5.00"), ADMIN).unwrap();
    assert_eq!(r.messages[0].text, "Invalid price. Try again.");
    // still no product written
    assert_eq!(store.products.len(), 0);
}

#[test]
fn any_parsed_price_is_stored_literally() {
    // the value is the literal parsed integer; nothing is scaled or rejected
    let mut store = Store::new();
    let mut sessions = SessionStore::new();
    add_product_flow(&mut store, &mut sessions, "Refund", "d", "-250", "i");
    assert_eq!(store.products.len(), 1);
    assert_eq!(store.products[0].price, -250);
    assert_eq!(storebot::utils::format_price(-250), "$-2.50");
}

#[test]
fn repeated_signup_refreshes_the_name_fields() {
    let mut store = Store::new();
    store.signup(100, None, "Kim".to_string(), None).unwrap();
    store
        .signup(
            100,
            Some("kim_l".to_string()),
            "Kimberly".to_string(),
            Some("Lee".to_string()),
        )
        .unwrap();
    // still one row and one cart, but the name fields are the latest ones
    assert_eq!(store.users.len(), 1);
    assert_eq!(store.carts.len(), 1);
    assert_eq!(store.users[0].id, 100);
    assert_eq!(store.users[0].username.as_deref(), Some("kim_l"));
    assert_eq!(store.users[0].first_name, "Kimberly");
    assert_eq!(store.users[0].last_name.as_deref(), Some("Lee"));
}

#[test]
fn non_admin_cannot_enter_admin_flows() {
    let mut store = Store::new();
    let mut sessions = SessionStore::new();
    let who = customer();
    let r = handle_event(&mut store, &mut sessions, &who, cmd(Command::Add, "/add"), ADMIN);
    assert!(r.is_err());
    assert!(matches!(sessions.get(who.id), State::Start));
    let r = handle_event(&mut store, &mut sessions, &who, cmd(Command::Remove, "/remove"), ADMIN);
    assert!(r.is_err());
    assert_eq!(store.products.len(), 0);
}

#[test]
fn cancel_at_every_add_flow_state_writes_no_product() {
    // cancel after each number of collected fields, idle state follows
    for steps in 0..4 {
        let mut store = Store::new();
        let mut sessions = SessionStore::new();
        let who = admin();
        let inputs = ["Widget", "A fine widget", "500"];
        handle_event(&mut store, &mut sessions, &who, cmd(Command::Add, "/add"), ADMIN).unwrap();
        for input in inputs.iter().take(steps) {
            handle_event(&mut store, &mut sessions, &who, text(input), ADMIN).unwrap();
        }
        let r = handle_event(&mut store, &mut sessions, &who, cmd(Command::Cancel, "/cancel"), ADMIN).unwrap();
        assert_eq!(r.messages[0].text, "Cancelled the dialogue.");
        assert!(matches!(sessions.get(ADMIN), State::Start));
        assert_eq!(store.products.len(), 0);
    }
}

#[test]
fn add_to_cart_twice_yields_one_row_quantity_two() {
    let mut store = Store::new();
    let mut sessions = SessionStore::new();
    add_product_flow(&mut store, &mut sessions, "Widget", "d", "500", "i");
    store.signup(100, None, "Kim".to_string(), None).unwrap();
    assert_eq!(store.add_to_cart(100, 1).unwrap(), AddToCartOutcome::Inserted);
    assert_eq!(store.add_to_cart(100, 1).unwrap(), AddToCartOutcome::Incremented);
    assert_eq!(store.cart_items.len(), 1);
    assert_eq!(store.cart_items[0].quantity, 2);
}

#[test]
fn near_simultaneous_adds_converge_through_the_engine() {
    // two identical button presses from the same user, serialized per user
    let mut store = Store::new();
    let mut sessions = SessionStore::new();
    add_product_flow(&mut store, &mut sessions, "Widget", "d", "500", "i");
    let who = customer();
    handle_event(&mut store, &mut sessions, &who, cmd(Command::Start, "/start"), ADMIN).unwrap();
    let press = || Event::Callback("add_to_cart 1".to_string());
    let r1 = handle_event(&mut store, &mut sessions, &who, press(), ADMIN).unwrap();
    assert_eq!(r1.messages[0].text, "Product added to cart.");
    let r2 = handle_event(&mut store, &mut sessions, &who, press(), ADMIN).unwrap();
    assert_eq!(r2.messages[0].text, "Added another to your cart.");
    assert_eq!(store.cart_items.len(), 1);
    assert_eq!(store.cart_items[0].quantity, 2);
}

#[test]
fn place_order_snapshots_items_and_empties_cart() {
    let mut store = Store::new();
    let mut sessions = SessionStore::new();
    add_product_flow(&mut store, &mut sessions, "Widget", "d", "500", "i");
    add_product_flow(&mut store, &mut sessions, "Gadget", "d", "250", "i");
    store.signup(100, None, "Kim".to_string(), None).unwrap();
    store.add_to_cart(100, 1).unwrap();
    store.add_to_cart(100, 2).unwrap();
    store.add_to_cart(100, 2).unwrap();
    let placed = store.place_order(100).unwrap();
    assert!(matches!(placed, PlaceOrderOutcome::Placed { order_id: 1 }));
    assert_eq!(store.orders.len(), 1);
    assert_eq!(store.order_items.len(), 2);
    assert_eq!(store.order_items[0].order_id, 1);
    assert_eq!(store.order_items[0].product_id, 1);
    assert_eq!(store.order_items[0].quantity, 1);
    assert_eq!(store.order_items[1].product_id, 2);
    assert_eq!(store.order_items[1].quantity, 2);
    assert_eq!(store.cart_items.len(), 0);
    // a second checkout finds the cart empty: a no-op that creates no order
    assert!(matches!(store.place_order(100).unwrap(), PlaceOrderOutcome::EmptyCart));
    assert_eq!(store.orders.len(), 1);
    assert_eq!(store.order_items.len(), 2);
}

#[test]
fn order_snapshots_survive_later_changes() {
    let mut store = Store::new();
    let mut sessions = SessionStore::new();
    add_product_flow(&mut store, &mut sessions, "Widget", "d", "500", "i");
    store.signup(100, None, "Kim".to_string(), None).unwrap();
    store.add_to_cart(100, 1).unwrap();
    store.place_order(100).unwrap();
    // removing the product later does not alter the placed order
    store.remove_product(1).unwrap();
    assert_eq!(store.order_items.len(), 1);
    assert_eq!(store.order_items[0].product_id, 1);
    assert_eq!(store.order_items[0].quantity, 1);
}

#[test]
fn invalid_remove_cart_item_input_changes_nothing() {
    let mut store = Store::new();
    let mut sessions = SessionStore::new();
    add_product_flow(&mut store, &mut sessions, "Widget", "d", "500", "i");
    store.signup(100, None, "Kim".to_string(), None).unwrap();
    store.add_to_cart(100, 1).unwrap();
    let who = customer();
    handle_event(&mut store, &mut sessions, &who, Event::Callback("remove_cart_item".to_string()), ADMIN).unwrap();
    assert!(matches!(sessions.get(100), State::ReceiveRemoveCartItemId));
    // non-numeric text: error prompt, state unchanged
    let r = handle_event(&mut store, &mut sessions, &who, text("abc"), ADMIN).unwrap();
    assert_eq!(r.messages[0].text, "Invalid cart item id.");
    assert!(matches!(sessions.get(100), State::ReceiveRemoveCartItemId));
    assert_eq!(store.cart_items.len(), 1);
    // a numeric id that does not exist: same, table untouched
    let r = handle_event(&mut store, &mut sessions, &who, text("999"), ADMIN).unwrap();
    assert_eq!(r.messages[0].text, "Invalid cart item id.");
    assert!(matches!(sessions.get(100), State::ReceiveRemoveCartItemId));
    assert_eq!(store.cart_items.len(), 1);
    // the real id removes the row and ends the flow
    let r = handle_event(&mut store, &mut sessions, &who, text("1"), ADMIN).unwrap();
    assert_eq!(r.messages[0].text, "Cart item removed successfully.");
    assert!(matches!(sessions.get(100), State::Start));
    assert_eq!(store.cart_items.len(), 0);
}

#[test]
fn quantity_edit_flow_validates_and_updates() {
    let mut store = Store::new();
    let mut sessions = SessionStore::new();
    add_product_flow(&mut store, &mut sessions, "Widget", "d", "500", "i");
    store.signup(100, None, "Kim".to_string(), None).unwrap();
    store.add_to_cart(100, 1).unwrap();
    let who = customer();
    handle_event(&mut store, &mut sessions, &who, Event::Callback("edit_cart_item_quantity".to_string()), ADMIN).unwrap();
    let r = handle_event(&mut store, &mut sessions, &who, text("1"), ADMIN).unwrap();
    assert_eq!(r.messages[0].text, "Please, send me the new quantity for cart item #1.");
    // zero is rejected: a cart row always stands for at least one unit
    let r = handle_event(&mut store, &mut sessions, &who, text("0"), ADMIN).unwrap();
    assert_eq!(r.messages[0].text, "Invalid quantity.");
    assert_eq!(store.cart_items[0].quantity, 1);
    let r = handle_event(&mut store, &mut sessions, &who, text("5"), ADMIN).unwrap();
    assert_eq!(r.messages[0].text, "Cart item updated successfully.");
    assert_eq!(store.cart_items[0].quantity, 5);
    assert!(matches!(sessions.get(100), State::Start));
}

#[test]
fn view_cart_renders_lines_and_total() {
    let mut store = Store::new();
    let mut sessions = SessionStore::new();
    add_product_flow(&mut store, &mut sessions, "Widget", "d", "500", "i");
    store.signup(100, None, "Kim".to_string(), None).unwrap();
    store.add_to_cart(100, 1).unwrap();
    store.add_to_cart(100, 1).unwrap();
    let who = customer();
    let r = handle_event(&mut store, &mut sessions, &who, cmd(Command::Cart, "/cart"), ADMIN).unwrap();
    assert_eq!(
        r.messages[0].text,
        "Your cart(1):\n\n#ID - name - quantity - price\n\n--------------------------\n\n#1 - Widget - x2 - $10.00\n\n--------------------------\n\nTotal: $10.00"
    );
    assert_eq!(r.messages[0].buttons.len(), 2);
    assert_eq!(r.messages[0].buttons[0][0].label, "Place Order");
    assert_eq!(r.messages[0].buttons[1][1].label, "Edit Quantity");
}

#[test]
fn view_cart_empty_and_missing_product() {
    let mut store = Store::new();
    let mut sessions = SessionStore::new();
    add_product_flow(&mut store, &mut sessions, "Widget", "d", "500", "i");
    store.signup(100, None, "Kim".to_string(), None).unwrap();
    let who = customer();
    let r = handle_event(&mut store, &mut sessions, &who, cmd(Command::Cart, "/cart"), ADMIN).unwrap();
    assert_eq!(r.messages[0].text, "Your cart is empty.");
    // an item whose product has left the catalog is a user-facing error
    store.add_to_cart(100, 1).unwrap();
    store.remove_product(1).unwrap();
    let r = handle_event(&mut store, &mut sessions, &who, cmd(Command::Cart, "/cart"), ADMIN).unwrap();
    assert_eq!(r.messages[0].text, "Product not found.");
}

#[test]
fn view_orders_lists_most_recent_first() {
    let mut store = Store::new();
    let mut sessions = SessionStore::new();
    add_product_flow(&mut store, &mut sessions, "Widget", "d", "500", "i");
    store.signup(100, None, "Kim".to_string(), None).unwrap();
    let who = customer();
    let r = handle_event(&mut store, &mut sessions, &who, cmd(Command::Orders, "/orders"), ADMIN).unwrap();
    assert_eq!(r.messages[0].text, "You have no orders.");
    store.add_to_cart(100, 1).unwrap();
    store.place_order(100).unwrap();
    store.add_to_cart(100, 1).unwrap();
    store.place_order(100).unwrap();
    let r = handle_event(&mut store, &mut sessions, &who, cmd(Command::Orders, "/orders"), ADMIN).unwrap();
    assert_eq!(r.messages[0].text, "Your orders:\n\n#2\n\n#1");
}

#[test]
fn inventory_chunks_buttons_two_per_row() {
    let mut store = Store::new();
    let mut sessions = SessionStore::new();
    let who = customer();
    let r = handle_event(&mut store, &mut sessions, &who, cmd(Command::Inventory, "/inventory"), ADMIN).unwrap();
    assert_eq!(r.messages[0].text, "The store is empty.");
    add_product_flow(&mut store, &mut sessions, "A", "d", "1", "i");
    add_product_flow(&mut store, &mut sessions, "B", "d", "2", "i");
    add_product_flow(&mut store, &mut sessions, "C", "d", "3", "i");
    let r = handle_event(&mut store, &mut sessions, &who, cmd(Command::Inventory, "/inventory"), ADMIN).unwrap();
    let rows = &r.messages[0].buttons;
    assert_eq!(rows.len(), 2);
    assert_eq!(rows[0].len(), 2);
    assert_eq!(rows[1].len(), 1);
    assert_eq!(rows[0][0].label, "A");
    assert_eq!(rows[0][1].label, "B");
    assert_eq!(rows[1][0].label, "C");
    assert_eq!(rows[1][0].token, CallbackToken::ViewProduct(3));
}

#[test]
fn view_product_card_and_buttons() {
    let mut store = Store::new();
    let mut sessions = SessionStore::new();
    add_product_flow(&mut store, &mut sessions, "Widget", "A fine widget", "500", "img.png");
    let who = customer();
    let r = handle_event(&mut store, &mut sessions, &who, Event::Callback("view_product 1".to_string()), ADMIN).unwrap();
    assert_eq!(
        r.messages[0].text,
        "Name: Widget\n\nID: 1\n\nDescription: A fine widget\n\nPrice: $5.00\n\nImage: img.png"
    );
    assert_eq!(r.messages[0].buttons[0][0].token, CallbackToken::AddToCart(1));
    assert_eq!(r.messages[0].buttons[0][1].token, CallbackToken::Back);
}

#[test]
fn commands_fall_through_to_the_step_handler_outside_idle() {
    // outside the idle state an unclaimed command text is ordinary input
    let mut store = Store::new();
    let mut sessions = SessionStore::new();
    let who = admin();
    handle_event(&mut store, &mut sessions, &who, cmd(Command::Add, "/add"), ADMIN).unwrap();
    handle_event(&mut store, &mut sessions, &who, cmd(Command::Help, "/help"), ADMIN).unwrap();
    match sessions.get(ADMIN) {
        State::ReceiveProductDescription { product_name } => assert_eq!(product_name, "/help"),
        _ => panic!("expected the command text to become the product name"),
    }
}

#[test]
fn service_error_variants() {
    let mut store = Store::new();
    // cart-item mutations on absent rows report not-found
    assert_eq!(store.remove_cart_item(1), Err(StoreError::NotFound));
    assert_eq!(store.set_cart_item_quantity(1, 2), Err(StoreError::NotFound));
    // quantities below one are invalid
    store.signup(100, None, "Kim".to_string(), None).unwrap();
    assert_eq!(store.set_cart_item_quantity(1, 0), Err(StoreError::InvalidQuantity));
    // mutating through a cart that was never created is an invariant
    // violation, for checkout too
    assert_eq!(store.add_to_cart(999, 1), Err(StoreError::CartNotFound));
    assert!(matches!(store.place_order(999), Err(StoreError::CartNotFound)));
    // removing an unknown product is not found
    assert_eq!(store.remove_product(42), Err(StoreError::NotFound));
    // an exhausted id space is reported, not wrapped around
    store.next_product_id = i64::MAX;
    assert_eq!(
        store.add_product("X".to_string(), "d".to_string(), 1, "i".to_string()),
        Err(StoreError::IdsExhausted)
    );
}

#[test]
fn overflowing_totals_are_reported() {
    let mut store = Store::new();
    let mut sessions = SessionStore::new();
    add_product_flow(&mut store, &mut sessions, "Widget", "d", "9223372036854775807", "i");
    store.signup(100, None, "Kim".to_string(), None).unwrap();
    store.add_to_cart(100, 1).unwrap();
    store.set_cart_item_quantity(1, 2).unwrap();
    assert!(matches!(store.cart_view(100), Err(StoreError::AmountOverflow)));
}

#[test]
fn signup_is_idempotent() {
    let mut store = Store::new();
    store.signup(100, None, "Kim".to_string(), None).unwrap();
    store.signup(100, None, "Kim".to_string(), None).unwrap();
    assert_eq!(store.users.len(), 1);
    assert_eq!(store.carts.len(), 1);
    assert_eq!(store.carts[0].user_id, 100);
}

#[test]
fn help_lists_every_command() {
    let mut store = Store::new();
    let mut sessions = SessionStore::new();
    let who = customer();
    let r = handle_event(&mut store, &mut sessions, &who, cmd(Command::Help, "/help"), ADMIN).unwrap();
    assert!(r.delete_incoming);
    assert_eq!(
        r.messages[0].text,
        "These commands are supported:\n/help — Show help text.\n/start — Create a new account in the store.\n/cancel — Cancel the current dialogue.\n/inventory — View the store's inventory.\n/add — Add a new product.\n/remove — Remove a product.\n/cart — View your cart.\n/orders — View your orders.\n/shop — View the shop web app."
    );
}

#[test]
fn start_creates_account_and_cart_once() {
    let mut store = Store::new();
    let mut sessions = SessionStore::new();
    let who = customer();
    let r = handle_event(&mut store, &mut sessions, &who, cmd(Command::Start, "/start"), ADMIN).unwrap();
    assert_eq!(r.messages[0].text, "Welcome to the store!");
    handle_event(&mut store, &mut sessions, &who, cmd(Command::Start, "/start"), ADMIN).unwrap();
    assert_eq!(store.users.len(), 1);
    assert_eq!(store.carts.len(), 1);
    assert_eq!(store.users[0].first_name, "Kim");
}

#[test]
fn shop_resets_the_session_and_links_the_web_app() {
    let mut store = Store::new();
    let mut sessions = SessionStore::new();
    let who = admin();
    handle_event(&mut store, &mut sessions, &who, cmd(Command::Add, "/add"), ADMIN).unwrap();
    let r = handle_event(&mut store, &mut sessions, &who, cmd(Command::Shop, "/shop"), ADMIN).unwrap();
    assert!(matches!(sessions.get(ADMIN), State::Start));
    assert_eq!(r.messages.len(), 2);
    assert_eq!(r.messages[0].text, "Cancelled the dialogue.");
    assert_eq!(r.messages[1].text, "Visit the store here:");
    let (label, url) = r.messages[1].web_app.as_ref().unwrap();
    assert_eq!(label, "Visit Store");
    assert_eq!(url, "https://xenon-lumenlimitless.vercel.app/");
}

#[test]
fn back_button_removes_the_prompt_and_sends_nothing() {
    let mut store = Store::new();
    let mut sessions = SessionStore::new();
    let who = customer();
    let r = handle_event(&mut store, &mut sessions, &who, Event::Callback("back".to_string()), ADMIN).unwrap();
    assert!(r.delete_prompt);
    assert!(r.messages.is_empty());
}

#[test]
fn missing_text_reprompts_without_advancing() {
    let mut store = Store::new();
    let mut sessions = SessionStore::new();
    let who = admin();
    handle_event(&mut store, &mut sessions, &who, cmd(Command::Add, "/add"), ADMIN).unwrap();
    let r = handle_event(&mut store, &mut sessions, &who, Event::EmptyMessage, ADMIN).unwrap();
    assert_eq!(r.messages[0].text, "Please, send me the product name.");
    assert!(matches!(sessions.get(ADMIN), State::ReceiveProductName));
}

#[test]
fn unknown_message_in_idle_state_is_explained() {
    let mut store = Store::new();
    let mut sessions = SessionStore::new();
    let who = customer();
    let r = handle_event(&mut store, &mut sessions, &who, text("hello"), ADMIN).unwrap();
    assert_eq!(r.messages[0].text, "Unable to handle the message. Type /help to see the usage.");
    assert!(matches!(sessions.get(who.id), State::Start));
}

#[test]
fn entering_a_new_flow_replaces_the_old_one() {
    let mut store = Store::new();
    let mut sessions = SessionStore::new();
    let who = admin();
    handle_event(&mut store, &mut sessions, &who, cmd(Command::Add, "/add"), ADMIN).unwrap();
    handle_event(&mut store, &mut sessions, &who, text("Widget"), ADMIN).unwrap();
    // a flow-initiating command discards the in-flight session data
    handle_event(&mut store, &mut sessions, &who, cmd(Command::Remove, "/remove"), ADMIN).unwrap();
    assert!(matches!(sessions.get(ADMIN), State::ReceiveProductId));
    assert_eq!(store.products.len(), 0);
}
