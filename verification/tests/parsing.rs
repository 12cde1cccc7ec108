use storebot::engine::{parse_callback_data, render_callback_token};
use storebot::numeric::{i64_to_dec_signed, parse_i64, u64_to_dec};
use storebot::schema::CallbackToken;
use storebot::session::SessionStore;
use storebot::schema::State;
use storebot::utils::format_price;

#[test]
fn parse_i64_accepts_what_rust_accepts() {
    assert_eq!(parse_i64("42"), Some(42));
    assert_eq!(parse_i64("0"), Some(0));
    assert_eq!(parse_i64("007"), Some(7));
    assert_eq!(parse_i64("-7"), Some(-7));
    assert_eq!(parse_i64("+10"), Some(10));
    assert_eq!(parse_i64("9223372036854775807"), Some(i64::MAX));
    assert_eq!(parse_i64("-9223372036854775808"), Some(i64::MIN));
}

#[test]
fn parse_i64_rejects_everything_else() {
    assert_eq!(parse_i64(""), None);
    assert_eq!(parse_i64("-"), None);
    assert_eq!(parse_i64("+"), None);
    assert_eq!(parse_i64("abc"), None);
    assert_eq!(parse_i64("12a"), None);
    assert_eq!(parse_i64("4 2"), None);
    assert_eq!(parse_i64(" 42"), None);
    assert_eq!(parse_i64("1.5"), None);
    assert_eq!(parse_i64("9223372036854775808"), None);
    assert_eq!(parse_i64("-9223372036854775809"), None);
    assert_eq!(parse_i64("99999999999999999999999"), None);
}

#[test]
fn decimal_printing() {
    assert_eq!(u64_to_dec(0), "0");
    assert_eq!(u64_to_dec(10), "10");
    assert_eq!(u64_to_dec(1234567890), "1234567890");
    assert_eq!(i64_to_dec_signed(-45), "-45");
    assert_eq!(i64_to_dec_signed(7), "7");
}

#[test]
fn price_display_divides_by_one_hundred_only_for_display() {
    assert_eq!(format_price(500), "$5.00");
    assert_eq!(format_price(0), "$0.00");
    assert_eq!(format_price(5), "$0.05");
    assert_eq!(format_price(50), "$0.50");
    assert_eq!(format_price(123456), "$1234.56");
    assert_eq!(format_price(-550), "$-5.50");
}

#[test]
fn callback_tokens_decode_and_reject() {
    assert_eq!(parse_callback_data("back"), Some(CallbackToken::Back));
    assert_eq!(parse_callback_data("place_order"), Some(CallbackToken::PlaceOrder));
    assert_eq!(parse_callback_data("remove_cart_item"), Some(CallbackToken::RemoveCartItem));
    assert_eq!(
        parse_callback_data("edit_cart_item_quantity"),
        Some(CallbackToken::EditCartItemQuantity)
    );
    assert_eq!(parse_callback_data("view_product 42"), Some(CallbackToken::ViewProduct(42)));
    assert_eq!(parse_callback_data("add_to_cart 1"), Some(CallbackToken::AddToCart(1)));
    // the closed set: anything else is dropped
    assert_eq!(parse_callback_data(""), None);
    assert_eq!(parse_callback_data("view_product"), None);
    assert_eq!(parse_callback_data("view_product abc"), None);
    assert_eq!(parse_callback_data("add_to_cart "), None);
    assert_eq!(parse_callback_data("drop_table products"), None);
}

#[test]
fn callback_tokens_round_trip() {
    let tokens = [
        CallbackToken::Back,
        CallbackToken::PlaceOrder,
        CallbackToken::RemoveCartItem,
        CallbackToken::EditCartItemQuantity,
        CallbackToken::ViewProduct(42),
        CallbackToken::AddToCart(-3),
    ];
    for t in tokens {
        let rendered = render_callback_token(&t);
        assert_eq!(parse_callback_data(&rendered), Some(t));
    }
    assert_eq!(render_callback_token(&CallbackToken::ViewProduct(42)), "view_product 42");
}

#[test]
fn sessions_default_to_idle_and_stay_per_user() {
    let mut sessions = SessionStore::new();
    assert!(matches!(sessions.get(1), State::Start));
    sessions.set(1, State::ReceiveProductName);
    sessions.set(2, State::ReceiveProductId);
    assert!(matches!(sessions.get(1), State::ReceiveProductName));
    assert!(matches!(sessions.get(2), State::ReceiveProductId));
    sessions.clear(1);
    assert!(matches!(sessions.get(1), State::Start));
    assert!(matches!(sessions.get(2), State::ReceiveProductId));
}
