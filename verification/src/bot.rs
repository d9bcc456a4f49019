//! The optional local bot control server: its data shapes and the
//! addresses and bodies of its requests.

use vstd::prelude::*;

use crate::json::{json_quoted, quote_json, Json};
use crate::text::{endpoint, trim_slashes};

verus! {

/// One inventory slot as the bot control server reports it.
pub struct InventorySlot {
    pub slot: u32,
    pub code: String,
    pub quantity: u32,
}

/// A bot snapshot from `GET /bots` or `GET /bots/{name}`.
pub struct BotSummary {
    pub name: String,
    pub level: u32,
    pub hp: i32,
    pub max_hp: i32,
    pub xp: u32,
    pub max_xp: u32,
    pub gold: u64,
    pub skin: String,
    pub status: String,
    pub running: bool,
    pub paused: bool,
}

/// Aggregate swarm status from `GET /status`.
pub struct SwarmStatus {
    pub bot_count: usize,
    pub active_units: usize,
    pub status: String,
    pub summaries: Vec<BotSummary>,
    pub bots: Vec<Json>,
}

/// Bank contents from `GET /bank`.
pub struct BankDetails {
    pub items: Vec<InventorySlot>,
    pub total_gold: u64,
}

/// The task of a `POST /command` request.
pub struct CommandTaskSpec {
    pub action: String,
    pub code: Option<String>,
    pub quantity: Option<u32>,
    pub x: Option<i32>,
    pub y: Option<i32>,
    pub slot: Option<String>,
}

/// The body of a `POST /command` request; no bot name broadcasts to all
/// bots.
pub struct CommandRequest {
    pub bot_name: Option<String>,
    pub task: CommandTaskSpec,
}

/// The address of `path` on the control server.
pub open spec fn control_path(control_url: Seq<char>, path: Seq<char>) -> Seq<char> {
    trim_slashes(control_url) + path
}

/// `GET /bots`: the bot list.
pub fn bots_url(control_url: &str) -> (r: String)
    ensures
        r@ == control_path(control_url@, "/bots"@),
{
    endpoint(control_url, "/bots")
}

/// `GET /bots/{name}`: one bot's details.
pub fn bot_url(control_url: &str, name: &str) -> (r: String)
    ensures
        r@ == control_path(control_url@, "/bots/"@ + name@),
{
    let mut path = String::from_str("/bots/");
    path.append(name);
    endpoint(control_url, path.as_str())
}

/// The three bot controls of the server.
#[derive(Clone, Copy, Debug, PartialEq, Eq, Structural)]
pub enum BotControl {
    Pause,
    Resume,
    Rest,
}

/// The path suffix of a bot control.
pub open spec fn control_suffix(c: BotControl) -> Seq<char> {
    match c {
        BotControl::Pause => "/pause"@,
        BotControl::Resume => "/resume"@,
        BotControl::Rest => "/rest"@,
    }
}

/// `POST /bots/{name}/pause`, `/resume` or `/rest`.
pub fn bot_control_url(control_url: &str, name: &str, control: BotControl) -> (r: String)
    ensures
        r@ == control_path(control_url@, "/bots/"@ + name@ + control_suffix(control)),
{
    let mut path = String::from_str("/bots/");
    path.append(name);
    path.append(
        match control {
            BotControl::Pause => "/pause",
            BotControl::Resume => "/resume",
            BotControl::Rest => "/rest",
        },
    );
    endpoint(control_url, path.as_str())
}

/// `POST /command`: dispatch a task.
pub fn command_url(control_url: &str) -> (r: String)
    ensures
        r@ == control_path(control_url@, "/command"@),
{
    endpoint(control_url, "/command")
}

/// `GET /swarm/demand`: the demand board.
pub fn demand_url(control_url: &str) -> (r: String)
    ensures
        r@ == control_path(control_url@, "/swarm/demand"@),
{
    endpoint(control_url, "/swarm/demand")
}

/// `GET /bank`: the bank contents.
pub fn bank_url(control_url: &str) -> (r: String)
    ensures
        r@ == control_path(control_url@, "/bank"@),
{
    endpoint(control_url, "/bank")
}

/// `POST /demand/ignore`: blacklist an item from automated demands.
pub fn demand_ignore_url(control_url: &str) -> (r: String)
    ensures
        r@ == control_path(control_url@, "/demand/ignore"@),
{
    endpoint(control_url, "/demand/ignore")
}

/// The body of a `POST /demand/ignore` request,
/// `{"item_code":<code>}` with the code as a JSON string.
pub fn demand_ignore_body(item_code: &str) -> (r: String)
    ensures
        r@ == "{\"item_code\":"@ + json_quoted(item_code@) + "}"@,
{
    let mut b = String::from_str("{\"item_code\":");
    let q = quote_json(item_code);
    b.append(q.as_str());
    b.append("}");
    b
}

} // verus!
