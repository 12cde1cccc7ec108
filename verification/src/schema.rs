//! The conversation engine's vocabulary: session states, commands, callback
//! tokens, inbound events and outbound rendering instructions.

use vstd::prelude::*;

verus! {

/// Per-user conversation state. Each variant carries exactly the data
/// collected so far in the current flow, so an incomplete form cannot hold
/// contradictory fields.
pub enum State {
    /// Idle: no flow in progress.
    Start,
    /// Add-product flow: waiting for the product name.
    ReceiveProductName,
    /// Add-product flow: waiting for the description.
    ReceiveProductDescription { product_name: String },
    /// Add-product flow: waiting for the price (integer minor units).
    ReceiveProductPrice { product_name: String, product_description: String },
    /// Add-product flow: waiting for the image reference.
    ReceiveProductImage {
        product_name: String,
        product_description: String,
        product_price: i64,
    },
    /// Remove-product flow: waiting for the product id.
    ReceiveProductId,
    /// Cart flow: waiting for the id of the cart item to delete.
    ReceiveRemoveCartItemId,
    /// Cart flow: waiting for the id of the cart item whose quantity changes.
    ReceiveEditCartItemQuantityId,
    /// Cart flow: waiting for the new quantity of the chosen cart item.
    ReceiveEditCartItemQuantityAmount { cart_item_id: i64 },
}

impl Default for State {
    /// A fresh session is idle.
    fn default() -> (r: Self)
        ensures
            r == State::Start,
    {
        State::Start
    }
}

/// The storefront's slash commands.
#[derive(Clone, Copy, PartialEq, Eq, Structural, Debug)]
pub enum Command {
    Help,
    Start,
    Cancel,
    Inventory,
    Add,
    Remove,
    Cart,
    Orders,
    Shop,
}

/// The closed set of button tokens the engine understands. Anything else
/// arriving on the callback channel is dropped as a no-op.
#[derive(Clone, Copy, PartialEq, Eq, Structural, Debug)]
pub enum CallbackToken {
    ViewProduct(i64),
    AddToCart(i64),
    RemoveCartItem,
    EditCartItemQuantity,
    PlaceOrder,
    Back,
}

/// One inbound unit of work, as the transport adapter hands it to the engine.
pub enum Event {
    /// A recognized slash command, with the literal text it was parsed from.
    /// Commands that only the idle state claims fall through to the current
    /// step handler as that text, exactly like any other message.
    Command { command: Command, text: String },
    /// A plain text message.
    Text(String),
    /// A message that carries no text (photo, sticker, ...).
    EmptyMessage,
    /// A button press, carrying the raw token string.
    Callback(String),
}

/// A labeled action button.
pub struct Button {
    pub label: String,
    pub token: CallbackToken,
}

/// One outbound message: a text body, optional button rows, an optional
/// web-app link button, and whether the transport should ask for a reply.
pub struct OutMessage {
    pub text: String,
    pub buttons: Vec<Vec<Button>>,
    pub web_app: Option<(String, String)>,
    pub force_reply: bool,
}

/// Rendering instructions for one handled event.
pub struct Reply {
    /// Delete the user's triggering message, to keep the chat clean.
    pub delete_incoming: bool,
    /// Delete the previous prompt message.
    pub delete_prompt: bool,
    pub messages: Vec<OutMessage>,
}

/// The failures that escape a step handler and end only the current unit of
/// work: a non-admin entering an admin flow, a user whose cart row is missing
/// (an invariant violation: signup always creates one), an id space or an
/// amount that no longer fits in 64 bits.
#[derive(Clone, Copy, PartialEq, Eq, Structural, Debug)]
pub enum EngineError {
    NotAdmin,
    CartNotFound,
    StoreFull,
    AmountOverflow,
}

/// A plain text message with no buttons and no reply request.
pub open spec fn is_plain_message(m: OutMessage, text: Seq<char>) -> bool {
    &&& m.text@ == text
    &&& m.buttons@.len() == 0
    &&& m.web_app is None
    &&& !m.force_reply
}

/// A prompt: text only, but asking the transport to force a reply.
pub open spec fn is_prompt_message(m: OutMessage, text: Seq<char>) -> bool {
    &&& m.text@ == text
    &&& m.buttons@.len() == 0
    &&& m.web_app is None
    &&& m.force_reply
}

/// A reply that only sends `text` and touches no earlier message.
pub open spec fn is_plain_reply(r: Reply, text: Seq<char>) -> bool {
    &&& !r.delete_incoming
    &&& !r.delete_prompt
    &&& r.messages@.len() == 1
    &&& is_plain_message(r.messages@[0], text)
}

/// A reply that deletes the triggering message and sends one plain text.
pub open spec fn is_command_plain_reply(r: Reply, text: Seq<char>) -> bool {
    &&& r.delete_incoming
    &&& !r.delete_prompt
    &&& r.messages@.len() == 1
    &&& is_plain_message(r.messages@[0], text)
}

/// A reply that deletes the previous prompt and sends one plain text.
pub open spec fn is_closing_reply(r: Reply, text: Seq<char>) -> bool {
    &&& !r.delete_incoming
    &&& r.delete_prompt
    &&& r.messages@.len() == 1
    &&& is_plain_message(r.messages@[0], text)
}

/// A reply that deletes the triggering message and sends one prompt.
pub open spec fn is_command_prompt_reply(r: Reply, text: Seq<char>) -> bool {
    &&& r.delete_incoming
    &&& !r.delete_prompt
    &&& r.messages@.len() == 1
    &&& is_prompt_message(r.messages@[0], text)
}

/// A reply that sends one prompt without deleting anything.
pub open spec fn is_prompt_reply(r: Reply, text: Seq<char>) -> bool {
    &&& !r.delete_incoming
    &&& !r.delete_prompt
    &&& r.messages@.len() == 1
    &&& is_prompt_message(r.messages@[0], text)
}

impl Reply {
    /// A reply that sends nothing and touches nothing.
    pub fn none() -> (r: Reply)
        ensures
            !r.delete_incoming,
            !r.delete_prompt,
            r.messages@.len() == 0,
    {
        Reply { delete_incoming: false, delete_prompt: false, messages: Vec::new() }
    }

    /// A plain text message.
    pub fn plain(text: &str) -> (r: Reply)
        ensures
            is_plain_reply(r, text@),
    {
        let m = OutMessage {
            text: String::from_str(text),
            buttons: Vec::new(),
            web_app: None,
            force_reply: false,
        };
        let mut messages: Vec<OutMessage> = Vec::new();
        messages.push(m);
        Reply { delete_incoming: false, delete_prompt: false, messages }
    }

    /// A prompt that asks the transport to force a reply.
    pub fn prompt(text: &str) -> (r: Reply)
        ensures
            is_prompt_reply(r, text@),
    {
        let m = OutMessage {
            text: String::from_str(text),
            buttons: Vec::new(),
            web_app: None,
            force_reply: true,
        };
        let mut messages: Vec<OutMessage> = Vec::new();
        messages.push(m);
        Reply { delete_incoming: false, delete_prompt: false, messages }
    }

    /// Delete the triggering message, then send one forced-reply prompt.
    pub fn command_prompt(text: &str) -> (r: Reply)
        ensures
            is_command_prompt_reply(r, text@),
    {
        let mut r = Reply::prompt(text);
        r.delete_incoming = true;
        r
    }

    /// Delete the triggering message, then send one plain text.
    pub fn command_plain(text: &str) -> (r: Reply)
        ensures
            is_command_plain_reply(r, text@),
    {
        let mut r = Reply::plain(text);
        r.delete_incoming = true;
        r
    }

    /// A plain text message from an already built string.
    pub fn plain_string(text: String) -> (r: Reply)
        ensures
            is_plain_reply(r, text@),
    {
        let m = OutMessage { text, buttons: Vec::new(), web_app: None, force_reply: false };
        let mut messages: Vec<OutMessage> = Vec::new();
        messages.push(m);
        Reply { delete_incoming: false, delete_prompt: false, messages }
    }

    /// A forced-reply prompt from an already built string.
    pub fn prompt_string(text: String) -> (r: Reply)
        ensures
            is_prompt_reply(r, text@),
    {
        let m = OutMessage { text, buttons: Vec::new(), web_app: None, force_reply: true };
        let mut messages: Vec<OutMessage> = Vec::new();
        messages.push(m);
        Reply { delete_incoming: false, delete_prompt: false, messages }
    }

    /// Delete the previous prompt, then send one plain text.
    pub fn closing(text: &str) -> (r: Reply)
        ensures
            is_closing_reply(r, text@),
    {
        let mut r = Reply::plain(text);
        r.delete_prompt = true;
        r
    }
}

} // verus!
