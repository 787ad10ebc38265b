use vstd::prelude::*;
use crate::cache::NameCache;
use crate::channel::{send_command, ChannelClosed};
use crate::command::{Command, FetchResult};
use crate::parse::{classify, classify_spec};
use crate::reconcile::{
    attach_address_info_to_ref, attach_address_info_to_route, attach_block_to_ref,
    attach_block_to_route, attach_transaction_to_ref, attach_transaction_to_route,
    matching_receipts, merge_receipts_into_block_ref, merge_receipts_into_route, receipt_matches,
};
use crate::route::{default_route_view, ActiveBlock, AddrRef, BlockRef, Route, RouteId, RouteV, TxRef};
use crate::text::chars_to_string;
use crate::types::{
    receipts_seq_view, tokens_view, AddressInfo, BlockWithTransactionReceipts,
    ERC20Token, TransactionReceipt, TransactionWithReceipt,
};

verus! {

/// Whether the edit line is being typed into or merely displayed.
#[derive(Clone, Copy, PartialEq, Eq, Structural, Debug)]
pub enum InputMode {
    Normal,
    Editing,
}

pub open spec fn routes_view(s: Seq<Route>) -> Seq<RouteV> {
    s.map_values(|r: Route| r@)
}

/// Appending an entry to the navigation history.
pub open spec fn push_route_stack(s: Seq<RouteV>, r: RouteV) -> Seq<RouteV> {
    s.push(r)
}

/// Going back: the top entry leaves unless it is the only one; popping the
/// sole entry is a no-op, never an error.
pub open spec fn pop_route_stack(s: Seq<RouteV>) -> Seq<RouteV> {
    if s.len() > 1 {
        s.drop_last()
    } else {
        s
    }
}

/// The displayed entry: the top of the stack, with the home route as the
/// defensive fallback should the stack ever be empty.
pub open spec fn current_route_of(s: Seq<RouteV>) -> RouteV {
    if s.len() > 0 {
        s.last()
    } else {
        default_route_view()
    }
}

/// Refocusing in place: the top entry is replaced by one with the same
/// target and the given focus, so history depth never changes.
pub open spec fn replace_focus_stack(s: Seq<RouteV>, active_block: ActiveBlock) -> Seq<RouteV> {
    if s.len() > 0 {
        s.drop_last().push(RouteV { id: s.last().id, active_block })
    } else {
        seq![RouteV { id: default_route_view().id, active_block }]
    }
}

/// The stack invariant: never empty, and the bottom entry always shows the
/// home dashboard.
pub open spec fn routes_wf(s: Seq<RouteV>) -> bool {
    s.len() >= 1 && s[0].id is Home
}

/// Popping the sole entry leaves the stack exactly as it was.
pub proof fn lemma_pop_sole_entry(s: Seq<RouteV>)
    requires
        s.len() == 1,
    ensures
        pop_route_stack(s) == s,
{
}

/// A pop undoes a push: the stack returns to its pre-push state.
pub proof fn lemma_push_then_pop(s: Seq<RouteV>, r: RouteV)
    requires
        s.len() >= 1,
    ensures
        pop_route_stack(push_route_stack(s, r)) == s,
{
    assert(s.push(r).drop_last() =~= s);
}

/// Pushing each entry of a sequence in turn.
pub open spec fn push_all_routes(s: Seq<RouteV>, rs: Seq<RouteV>) -> Seq<RouteV>
    decreases rs.len(),
{
    if rs.len() == 0 {
        s
    } else {
        push_all_routes(s.push(rs[0]), rs.drop_first())
    }
}

/// Popping a given number of times.
pub open spec fn pop_routes_n(s: Seq<RouteV>, n: nat) -> Seq<RouteV>
    decreases n,
{
    if n == 0 {
        s
    } else {
        pop_routes_n(pop_route_stack(s), (n - 1) as nat)
    }
}

proof fn lemma_push_all_is_add(s: Seq<RouteV>, rs: Seq<RouteV>)
    ensures
        push_all_routes(s, rs) == s + rs,
    decreases rs.len(),
{
    if rs.len() == 0 {
        assert(s + rs =~= s);
    } else {
        lemma_push_all_is_add(s.push(rs[0]), rs.drop_first());
        assert(s.push(rs[0]) + rs.drop_first() =~= s + rs);
    }
}

/// Pushing any number of entries and then popping as many times returns
/// the stack to its pre-push state.
pub proof fn lemma_push_pop_n(s: Seq<RouteV>, rs: Seq<RouteV>)
    requires
        s.len() >= 1,
    ensures
        pop_routes_n(push_all_routes(s, rs), rs.len() as nat) == s,
    decreases rs.len(),
{
    lemma_push_all_is_add(s, rs);
    if rs.len() > 0 {
        assert(pop_route_stack(s + rs) == (s + rs).drop_last());
        assert((s + rs).drop_last() =~= s + rs.drop_last());
        lemma_push_pop_n(s, rs.drop_last());
        lemma_push_all_is_add(s, rs.drop_last());
    }
}

/// The state of the terminal dashboard that the user-interface thread
/// owns: the navigation history, the command channel to the fetch worker,
/// the shared loading flag, the resolution caches and the line editor.
pub struct App {
    pub routes: Vec<Route>,
    pub io_tx: Option<std::sync::mpsc::Sender<Command>>,
    pub endpoint: String,
    pub is_loading: bool,
    pub is_toggled: bool,
    pub show_popup: bool,
    pub address2ens_id: NameCache,
    pub input_mode: InputMode,
    pub input: Vec<char>,
    pub cursor_position: usize,
    pub erc20_tokens: Vec<ERC20Token>,
}

impl App {
    /// The navigation history as a mathematical sequence, bottom first.
    pub open spec fn routes_spec(&self) -> Seq<RouteV> {
        routes_view(self.routes@)
    }

    /// Whether a command channel to a fetch worker is attached.
    pub open spec fn has_channel(&self) -> bool {
        self.io_tx is Some
    }

    pub open spec fn wf(&self) -> bool {
        routes_wf(self.routes_spec())
    }
}

/// Everything around the navigation stack and the loading flag: the two
/// states agree on the caches, the editor and the rest of the fields.
pub open spec fn same_ui_state(a: App, b: App) -> bool {
    &&& a.endpoint@ == b.endpoint@
    &&& a.is_toggled == b.is_toggled
    &&& a.show_popup == b.show_popup
    &&& a.input_mode == b.input_mode
    &&& a.input@ == b.input@
    &&& a.cursor_position == b.cursor_position
    &&& a.erc20_tokens == b.erc20_tokens
    &&& a.has_channel() == b.has_channel()
}

proof fn lemma_routes_view_push(s: Seq<Route>, r: Route)
    ensures
        routes_view(s.push(r)) == routes_view(s).push(r@),
{
    assert(routes_view(s.push(r)) =~= routes_view(s).push(r@));
}

proof fn lemma_routes_view_drop_last(s: Seq<Route>)
    requires
        s.len() > 0,
    ensures
        routes_view(s.drop_last()) == routes_view(s).drop_last(),
{
    assert(routes_view(s.drop_last()) =~= routes_view(s).drop_last());
}

impl App {
    /// A fresh dashboard: the stack holds the home route alone, nothing is
    /// loading, the caches are empty and the registry is the one given.
    pub fn new(
        io_tx: std::sync::mpsc::Sender<Command>,
        endpoint: &str,
        erc20_tokens: Vec<ERC20Token>,
    ) -> (r: App)
        ensures
            r.wf(),
            r.routes_spec() == seq![default_route_view()],
            r.endpoint@ == endpoint@,
            !r.is_loading,
            !r.is_toggled,
            !r.show_popup,
            r.address2ens_id@ == Map::<Seq<char>, Option<Seq<char>>>::empty(),
            r.input_mode is Normal,
            r.input@ == Seq::<char>::empty(),
            r.cursor_position == 0,
            r.erc20_tokens == erc20_tokens,
            r.has_channel(),
    {
        let mut routes: Vec<Route> = Vec::new();
        routes.push(Route::default());
        let r = App {
            routes,
            io_tx: Some(io_tx),
            endpoint: endpoint.to_owned(),
            is_loading: false,
            is_toggled: false,
            show_popup: false,
            address2ens_id: NameCache::new(),
            input_mode: InputMode::Normal,
            input: Vec::new(),
            cursor_position: 0,
            erc20_tokens,
        };
        proof {
            assert(r.routes_spec() =~= seq![default_route_view()]);
        }
        r
    }

    /// Go back one view; on the sole (home) entry this is a no-op.
    pub fn pop_current_route(&mut self)
        ensures
            final(self).routes_spec() == pop_route_stack(old(self).routes_spec()),
            final(self).is_loading == old(self).is_loading,
            final(self).address2ens_id@ == old(self).address2ens_id@,
            same_ui_state(*old(self), *final(self)),
            old(self).wf() ==> final(self).wf(),
    {
        if self.routes.len() > 1 {
            proof {
                lemma_routes_view_drop_last(self.routes@);
            }
            self.routes.pop();
        }
    }

    /// The entry on display: the top of the stack, or the home route as a
    /// defensive fallback if the stack were ever empty.
    pub fn get_current_route(&self) -> (r: Route)
        ensures
            r@ == current_route_of(self.routes_spec()),
    {
        if self.routes.len() > 0 {
            let r = self.routes[self.routes.len() - 1].clone();
            proof {
                assert(self.routes_spec()[self.routes@.len() - 1] == self.routes@[self.routes@.len()
                    - 1]@);
            }
            r
        } else {
            Route::default()
        }
    }

    /// Navigate to a new view by pushing it onto the history.
    pub fn set_route(&mut self, route: Route)
        ensures
            final(self).routes_spec() == push_route_stack(old(self).routes_spec(), route@),
            final(self).is_loading == old(self).is_loading,
            final(self).address2ens_id@ == old(self).address2ens_id@,
            same_ui_state(*old(self), *final(self)),
            old(self).wf() ==> final(self).wf(),
    {
        proof {
            lemma_routes_view_push(self.routes@, route);
        }
        self.routes.push(route);
    }

    /// Move the keyboard focus to another panel of the current view: the
    /// top entry is replaced in place, with the same target, so the depth
    /// of the history never changes.
    pub fn change_active_block(&mut self, active_block: ActiveBlock)
        ensures
            final(self).routes_spec() == replace_focus_stack(old(self).routes_spec(), active_block),
            final(self).routes_spec().len() == if old(self).routes_spec().len() > 0 {
                old(self).routes_spec().len()
            } else {
                1nat
            },
            final(self).is_loading == old(self).is_loading,
            final(self).address2ens_id@ == old(self).address2ens_id@,
            same_ui_state(*old(self), *final(self)),
            old(self).wf() ==> final(self).wf(),
    {
        let current_route = self.get_current_route();
        let ghost s0 = self.routes@;
        if self.routes.len() > 0 {
            proof {
                lemma_routes_view_drop_last(s0);
                assert(current_route@ == self.routes_spec().last());
            }
            self.routes.pop();
        }
        let next = Route::new(current_route.get_id(), active_block);
        proof {
            lemma_routes_view_push(self.routes@, next);
        }
        self.routes.push(next);
        proof {
            if s0.len() > 0 {
                assert(self.routes_spec() =~= replace_focus_stack(routes_view(s0), active_block));
            } else {
                assert(self.routes_spec() =~= replace_focus_stack(routes_view(s0), active_block));
            }
        }
    }
}

/// A cursor clamped to a line of the given length.
pub open spec fn clamped(pos: int, len: int) -> int {
    if pos <= len {
        pos
    } else {
        len
    }
}

/// The two states agree on everything the line editor does not own: the
/// navigation stack, the loading flag, the caches and the rest.
pub open spec fn same_non_editor_state(a: App, b: App) -> bool {
    &&& a.routes_spec() == b.routes_spec()
    &&& a.is_loading == b.is_loading
    &&& a.endpoint@ == b.endpoint@
    &&& a.is_toggled == b.is_toggled
    &&& a.show_popup == b.show_popup
    &&& a.address2ens_id@ == b.address2ens_id@
    &&& a.input_mode == b.input_mode
    &&& a.erc20_tokens == b.erc20_tokens
    &&& a.has_channel() == b.has_channel()
}

impl App {
    /// How the loading flag settles once the attempt to hand a command to
    /// the worker is known: a refused enqueue clears the flag at once;
    /// otherwise it keeps its value.
    pub fn apply_send_outcome(&mut self, outcome: Result<(), ChannelClosed>)
        ensures
            final(self).is_loading == (old(self).is_loading && outcome is Ok),
            final(self).routes_spec() == old(self).routes_spec(),
            final(self).address2ens_id@ == old(self).address2ens_id@,
            same_ui_state(*old(self), *final(self)),
    {
        match outcome {
            Ok(_) => {},
            Err(_) => {
                self.is_loading = false;
            },
        }
    }

    /// Ask the fetch worker for one unit of data. The loading flag goes up
    /// before the attempt; if the channel reports the worker gone, the
    /// flag comes straight back down (see apply_send_outcome) and the
    /// dashboard stays interactive. With no channel attached nothing is
    /// sent and the flag stays up. Whether the enqueue succeeds depends on
    /// whether the worker is still alive, so no more is promised of the
    /// flag here.
    pub fn dispatch(&mut self, command: Command)
        ensures
            final(self).routes_spec() == old(self).routes_spec(),
            final(self).address2ens_id@ == old(self).address2ens_id@,
            same_ui_state(*old(self), *final(self)),
            !old(self).has_channel() ==> final(self).is_loading,
    {
        self.is_loading = true;
        let outcome = match &self.io_tx {
            Some(io_tx) => send_command(io_tx, command),
            None => Ok(()),
        };
        self.apply_send_outcome(outcome);
    }

    /// How deep the navigation history currently is.
    pub fn routes_len(&self) -> (n: usize)
        ensures
            n as int == self.routes_spec().len(),
    {
        let n = self.routes.len();
        proof {
            assert(self.routes_spec().len() == self.routes@.len());
        }
        n
    }

    /// Keep a cursor within the line: at most its length.
    pub fn clamp_cursor(&self, new_cursor_pos: usize) -> (r: usize)
        ensures
            r as int == clamped(new_cursor_pos as int, self.input@.len() as int),
    {
        if new_cursor_pos <= self.input.len() {
            new_cursor_pos
        } else {
            self.input.len()
        }
    }

    pub fn move_cursor_left(&mut self)
        ensures
            same_non_editor_state(*old(self), *final(self)),
            final(self).input@ == old(self).input@,
            final(self).cursor_position as int == clamped(
                if old(self).cursor_position > 0 {
                    old(self).cursor_position - 1
                } else {
                    0int
                },
                old(self).input@.len() as int,
            ),
    {
        let moved = if self.cursor_position > 0 {
            self.cursor_position - 1
        } else {
            0
        };
        self.cursor_position = self.clamp_cursor(moved);
    }

    pub fn move_cursor_right(&mut self)
        ensures
            same_non_editor_state(*old(self), *final(self)),
            final(self).input@ == old(self).input@,
            final(self).cursor_position as int == clamped(
                old(self).cursor_position + 1,
                old(self).input@.len() as int,
            ),
    {
        let len = self.input.len();
        let moved = if self.cursor_position < len {
            self.cursor_position + 1
        } else {
            len
        };
        self.cursor_position = self.clamp_cursor(moved);
    }

    /// Type one character at the cursor.
    pub fn enter_char(&mut self, new_char: char)
        requires
            old(self).cursor_position <= old(self).input@.len(),
        ensures
            same_non_editor_state(*old(self), *final(self)),
            final(self).input@ == old(self).input@.insert(
                old(self).cursor_position as int,
                new_char,
            ),
            final(self).cursor_position == old(self).cursor_position + 1,
    {
        self.input.insert(self.cursor_position, new_char);
        self.move_cursor_right();
    }

    /// Append pasted text to the line and advance the cursor past it, as
    /// far as the line reaches.
    pub fn paste(&mut self, data: String)
        ensures
            same_non_editor_state(*old(self), *final(self)),
            final(self).input@ == old(self).input@ + data@,
            final(self).cursor_position as int == if data@.len() == 0 {
                old(self).cursor_position as int
            } else {
                clamped(
                    old(self).cursor_position + data@.len(),
                    final(self).input@.len() as int,
                )
            },
    {
        let cs = crate::text::str_to_chars(data.as_str());
        let k = cs.len();
        let mut j: usize = 0;
        while j < k
            invariant
                j <= k,
                k == cs.len(),
                cs@ == data@,
                same_non_editor_state(*old(self), *self),
                self.input@ == old(self).input@ + cs@.take(j as int),
                self.cursor_position == old(self).cursor_position,
            decreases k - j,
        {
            self.input.push(cs[j]);
            proof {
                assert(old(self).input@ + cs@.take(j as int + 1) =~= (old(self).input@ + cs@.take(
                    j as int,
                )).push(cs@[j as int]));
            }
            j = j + 1;
        }
        proof {
            assert(cs@.take(k as int) =~= cs@);
        }
        if k > 0 {
            let len_now = self.input.len();
            proof {
                assert(self.input@.len() == len_now as int);
                assert(len_now as int <= usize::MAX as int);
            }
            let target = self.cursor_position.saturating_add(k);
            self.cursor_position = self.clamp_cursor(target);
        }
    }

    /// Erase the character before the cursor, if there is one. Working on
    /// characters keeps any multi-byte character whole.
    pub fn delete_char(&mut self)
        ensures
            same_non_editor_state(*old(self), *final(self)),
            old(self).cursor_position == 0 ==> final(self).input@ == old(self).input@
                && final(self).cursor_position == old(self).cursor_position,
            old(self).cursor_position > 0 ==> final(self).input@ == (if old(self).cursor_position
                - 1 < old(self).input@.len() {
                old(self).input@.remove(old(self).cursor_position - 1)
            } else {
                old(self).input@
            }),
            old(self).cursor_position > 0 ==> final(self).cursor_position as int == clamped(
                old(self).cursor_position - 1,
                final(self).input@.len() as int,
            ),
    {
        if self.cursor_position != 0 {
            let idx = self.cursor_position - 1;
            if idx < self.input.len() {
                self.input.remove(idx);
            }
            self.move_cursor_left();
        }
    }

    pub fn reset_cursor(&mut self)
        ensures
            same_non_editor_state(*old(self), *final(self)),
            final(self).input@ == old(self).input@,
            final(self).cursor_position == 0,
    {
        self.cursor_position = 0;
    }

    /// Commit the typed query: classify it in fixed priority order and
    /// dispatch the command it asks for, if any; then clear the line and
    /// hand the committed text back for display. Unrecognized input
    /// dispatches nothing and is discarded without an error.
    pub fn submit_message(&mut self) -> (r: String)
        ensures
            r@ == old(self).input@,
            final(self).input@ == Seq::<char>::empty(),
            final(self).cursor_position == 0,
            final(self).routes_spec() == old(self).routes_spec(),
            final(self).address2ens_id@ == old(self).address2ens_id@,
            final(self).endpoint@ == old(self).endpoint@,
            final(self).is_toggled == old(self).is_toggled,
            final(self).show_popup == old(self).show_popup,
            final(self).input_mode == old(self).input_mode,
            final(self).erc20_tokens == old(self).erc20_tokens,
            final(self).has_channel() == old(self).has_channel(),
            classify_spec(tokens_view(old(self).erc20_tokens@), old(self).input@) is None
                ==> final(self).is_loading == old(self).is_loading,
            classify_spec(tokens_view(old(self).erc20_tokens@), old(self).input@) is Some
                && !old(self).has_channel() ==> final(self).is_loading,
    {
        let message = chars_to_string(&self.input);
        match classify(&self.erc20_tokens, &message) {
            Some(command) => {
                self.dispatch(command);
            },
            None => {},
        }
        self.input.clear();
        self.reset_cursor();
        message
    }
}

fn opt_u64_eq(a: Option<u64>, b: Option<u64>) -> (r: bool)
    ensures
        r == (a == b),
{
    match (a, b) {
        (Some(x), Some(y)) => x == y,
        (None, None) => true,
        _ => false,
    }
}

proof fn lemma_receipts_view_push(s: Seq<TransactionReceipt>, x: TransactionReceipt)
    ensures
        receipts_seq_view(s.push(x)) == receipts_seq_view(s).push(x@),
{
    assert(receipts_seq_view(s.push(x)) =~= receipts_seq_view(s).push(x@));
}

/// Filtering one more receipt appends it exactly when it matches.
proof fn lemma_matching_push(
    s: Seq<crate::types::TransactionReceiptV>,
    x: crate::types::TransactionReceiptV,
    number: Option<u64>,
)
    ensures
        matching_receipts(s.push(x), number) == if receipt_matches(x, number) {
            matching_receipts(s, number).push(x)
        } else {
            matching_receipts(s, number)
        },
{
    reveal(Seq::filter);
    assert(s.push(x).drop_last() =~= s);
    assert(s.push(x).last() == x);
}

/// The additive merge of a receipts batch into one block target, exactly
/// as merge_receipts_into_block_ref has it.
fn merge_receipts_into_block_ref_exec(
    b: BlockRef,
    transaction_receipts: &Vec<TransactionReceipt>,
) -> (r: BlockRef)
    ensures
        r@ == merge_receipts_into_block_ref(b@, receipts_seq_view(transaction_receipts@)),
{
    let ghost rsv = receipts_seq_view(transaction_receipts@);
    match b.payload {
        None => BlockRef { number: b.number, payload: None },
        Some(p) => {
            let ghost pv = p@;
            let number = p.block.number;
            let mut receipts: Vec<TransactionReceipt> = match p.transaction_receipts {
                Some(v) => v,
                None => Vec::new(),
            };
            proof {
                assert(receipts_seq_view(receipts@) =~= pv.transaction_receipts);
            }
            let ghost base = receipts_seq_view(receipts@);
            let n = transaction_receipts.len();
            let mut k: usize = 0;
            while k < n
                invariant
                    k <= n,
                    n == transaction_receipts.len(),
                    rsv == receipts_seq_view(transaction_receipts@),
                    number == pv.block.number,
                    base == pv.transaction_receipts,
                    receipts_seq_view(receipts@) == base + matching_receipts(
                        rsv.take(k as int),
                        number,
                    ),
                decreases n - k,
            {
                proof {
                    assert(rsv.take(k as int + 1) =~= rsv.take(k as int).push(rsv[k as int]));
                    lemma_matching_push(rsv.take(k as int), rsv[k as int], number);
                    assert(rsv[k as int] == transaction_receipts@[k as int]@);
                }
                if opt_u64_eq(transaction_receipts[k].block_number, number) {
                    let c = transaction_receipts[k].clone();
                    proof {
                        lemma_receipts_view_push(receipts@, c);
                        assert((base + matching_receipts(rsv.take(k as int), number)).push(
                            rsv[k as int],
                        ) =~= base + matching_receipts(rsv.take(k as int + 1), number));
                    }
                    receipts.push(c);
                }
                k = k + 1;
            }
            proof {
                assert(rsv.take(n as int) =~= rsv);
            }
            BlockRef {
                number: b.number,
                payload: Some(
                    BlockWithTransactionReceipts {
                        block: p.block,
                        transaction_receipts: Some(receipts),
                    },
                ),
            }
        },
    }
}

/// The attach of a fetched block to one block target, exactly as
/// attach_block_to_ref has it.
fn attach_block_to_ref_exec(b: BlockRef, fetched: &BlockWithTransactionReceipts) -> (r: BlockRef)
    ensures
        r@ == attach_block_to_ref(b@, fetched@),
{
    let vacant = b.payload.is_none();
    let wanted = match fetched.block.number {
        Some(m) => m == b.number,
        None => false,
    };
    if vacant && wanted {
        BlockRef { number: b.number, payload: Some(fetched.clone()) }
    } else {
        b
    }
}

/// The attach of a fetched transaction to one transaction target, exactly
/// as attach_transaction_to_ref has it.
fn attach_transaction_to_ref_exec(t: TxRef, fetched: &TransactionWithReceipt) -> (r: TxRef)
    ensures
        r@ == attach_transaction_to_ref(t@, fetched@),
{
    let vacant = t.payload.is_none();
    if vacant && fetched.transaction.hash == t.hash {
        TxRef { hash: t.hash, payload: Some(fetched.clone()) }
    } else {
        t
    }
}

/// The attach of resolved address information to one address target,
/// exactly as attach_address_info_to_ref has it.
fn attach_address_info_to_ref_exec(a: AddrRef, info: &AddressInfo) -> (r: AddrRef)
    ensures
        r@ == attach_address_info_to_ref(a@, info@),
{
    let vacant = a.payload.is_none();
    if vacant && info.address == a.address {
        AddrRef { address: a.address, payload: Some(info.clone()) }
    } else {
        a
    }
}

impl App {
    /// Merge a batch of fetched receipts into every stack entry still
    /// interested in it: each block-shaped entry with a resolved payload
    /// appends the receipts carrying its block number — an additive merge,
    /// never a replace, whichever order the block and its receipts arrived
    /// in. Entries whose block has not arrived, and entries of any other
    /// shape, keep their state. The stack is rebuilt as a whole, so the
    /// merge is atomic per redraw tick.
    pub fn update_block_with_transaction_receipts(
        &mut self,
        transaction_receipts: Vec<TransactionReceipt>,
    )
        ensures
            final(self).routes_spec().len() == old(self).routes_spec().len(),
            forall|i: int|
                0 <= i < old(self).routes_spec().len() ==> #[trigger] final(self).routes_spec()[i]
                    == merge_receipts_into_route(
                    old(self).routes_spec()[i],
                    receipts_seq_view(transaction_receipts@),
                ),
            final(self).is_loading == old(self).is_loading,
            final(self).address2ens_id@ == old(self).address2ens_id@,
            same_ui_state(*old(self), *final(self)),
            old(self).wf() ==> final(self).wf(),
    {
        let ghost rsv = receipts_seq_view(transaction_receipts@);
        let n = self.routes.len();
        let mut new_routes: Vec<Route> = Vec::new();
        let mut i: usize = 0;
        while i < n
            invariant
                i <= n,
                *self == *old(self),
                n == self.routes.len(),
                rsv == receipts_seq_view(transaction_receipts@),
                new_routes@.len() == i,
                forall|j: int|
                    0 <= j < i ==> #[trigger] routes_view(new_routes@)[j]
                        == merge_receipts_into_route(old(self).routes_spec()[j], rsv),
            decreases n - i,
        {
            let id = self.routes[i].get_id();
            let ab = self.routes[i].get_active_block();
            proof {
                assert(self.routes_spec()[i as int] == self.routes@[i as int]@);
            }
            let new_route = match id {
                RouteId::Block(b) => Route::new(
                    RouteId::Block(merge_receipts_into_block_ref_exec(b, &transaction_receipts)),
                    ab,
                ),
                RouteId::TransactionsOfBlock(b) => Route::new(
                    RouteId::TransactionsOfBlock(
                        merge_receipts_into_block_ref_exec(b, &transaction_receipts),
                    ),
                    ab,
                ),
                RouteId::WithdrawalsOfBlock(b) => Route::new(
                    RouteId::WithdrawalsOfBlock(
                        merge_receipts_into_block_ref_exec(b, &transaction_receipts),
                    ),
                    ab,
                ),
                other => Route::new(other, ab),
            };
            proof {
                assert(new_route@ == merge_receipts_into_route(
                    old(self).routes_spec()[i as int],
                    rsv,
                ));
                lemma_routes_view_push(new_routes@, new_route);
            }
            new_routes.push(new_route);
            i = i + 1;
        }
        self.routes = new_routes;
        proof {
            if old(self).wf() {
                assert(final(self).routes_spec()[0] == merge_receipts_into_route(
                    old(self).routes_spec()[0],
                    rsv,
                ));
            }
        }
    }

    /// Attach a fetched block to every block-shaped entry that was asked
    /// for its number and still lacks a payload; everything else keeps its
    /// state, so data merged earlier is never overwritten.
    pub fn update_routes_with_block(&mut self, block: BlockWithTransactionReceipts)
        ensures
            final(self).routes_spec().len() == old(self).routes_spec().len(),
            forall|i: int|
                0 <= i < old(self).routes_spec().len() ==> #[trigger] final(self).routes_spec()[i]
                    == attach_block_to_route(old(self).routes_spec()[i], block@),
            final(self).is_loading == old(self).is_loading,
            final(self).address2ens_id@ == old(self).address2ens_id@,
            same_ui_state(*old(self), *final(self)),
            old(self).wf() ==> final(self).wf(),
    {
        let n = self.routes.len();
        let mut new_routes: Vec<Route> = Vec::new();
        let mut i: usize = 0;
        while i < n
            invariant
                i <= n,
                *self == *old(self),
                n == self.routes.len(),
                new_routes@.len() == i,
                forall|j: int|
                    0 <= j < i ==> #[trigger] routes_view(new_routes@)[j] == attach_block_to_route(
                        old(self).routes_spec()[j],
                        block@,
                    ),
            decreases n - i,
        {
            let id = self.routes[i].get_id();
            let ab = self.routes[i].get_active_block();
            proof {
                assert(self.routes_spec()[i as int] == self.routes@[i as int]@);
            }
            let new_route = match id {
                RouteId::Block(b) => Route::new(
                    RouteId::Block(attach_block_to_ref_exec(b, &block)),
                    ab,
                ),
                RouteId::TransactionsOfBlock(b) => Route::new(
                    RouteId::TransactionsOfBlock(attach_block_to_ref_exec(b, &block)),
                    ab,
                ),
                RouteId::WithdrawalsOfBlock(b) => Route::new(
                    RouteId::WithdrawalsOfBlock(attach_block_to_ref_exec(b, &block)),
                    ab,
                ),
                other => Route::new(other, ab),
            };
            proof {
                assert(new_route@ == attach_block_to_route(
                    old(self).routes_spec()[i as int],
                    block@,
                ));
                lemma_routes_view_push(new_routes@, new_route);
            }
            new_routes.push(new_route);
            i = i + 1;
        }
        self.routes = new_routes;
        proof {
            if old(self).wf() {
                assert(final(self).routes_spec()[0] == attach_block_to_route(
                    old(self).routes_spec()[0],
                    block@,
                ));
            }
        }
    }

    /// Attach a fetched transaction to every transaction entry that was
    /// asked for its hash and still lacks a payload.
    pub fn update_routes_with_transaction(&mut self, transaction_with_receipt: TransactionWithReceipt)
        ensures
            final(self).routes_spec().len() == old(self).routes_spec().len(),
            forall|i: int|
                0 <= i < old(self).routes_spec().len() ==> #[trigger] final(self).routes_spec()[i]
                    == attach_transaction_to_route(
                    old(self).routes_spec()[i],
                    transaction_with_receipt@,
                ),
            final(self).is_loading == old(self).is_loading,
            final(self).address2ens_id@ == old(self).address2ens_id@,
            same_ui_state(*old(self), *final(self)),
            old(self).wf() ==> final(self).wf(),
    {
        let n = self.routes.len();
        let mut new_routes: Vec<Route> = Vec::new();
        let mut i: usize = 0;
        while i < n
            invariant
                i <= n,
                *self == *old(self),
                n == self.routes.len(),
                new_routes@.len() == i,
                forall|j: int|
                    0 <= j < i ==> #[trigger] routes_view(new_routes@)[j]
                        == attach_transaction_to_route(
                        old(self).routes_spec()[j],
                        transaction_with_receipt@,
                    ),
            decreases n - i,
        {
            let id = self.routes[i].get_id();
            let ab = self.routes[i].get_active_block();
            proof {
                assert(self.routes_spec()[i as int] == self.routes@[i as int]@);
            }
            let new_route = match id {
                RouteId::Transaction(t) => Route::new(
                    RouteId::Transaction(
                        attach_transaction_to_ref_exec(t, &transaction_with_receipt),
                    ),
                    ab,
                ),
                other => Route::new(other, ab),
            };
            proof {
                assert(new_route@ == attach_transaction_to_route(
                    old(self).routes_spec()[i as int],
                    transaction_with_receipt@,
                ));
                lemma_routes_view_push(new_routes@, new_route);
            }
            new_routes.push(new_route);
            i = i + 1;
        }
        self.routes = new_routes;
        proof {
            if old(self).wf() {
                assert(final(self).routes_spec()[0] == attach_transaction_to_route(
                    old(self).routes_spec()[0],
                    transaction_with_receipt@,
                ));
            }
        }
    }

    /// Record a resolved name in the address cache — a plain upsert, last
    /// write wins — and attach the information to every address entry that
    /// was asked for it and still lacks a payload.
    pub fn update_address_info(&mut self, info: AddressInfo)
        ensures
            final(self).routes_spec().len() == old(self).routes_spec().len(),
            forall|i: int|
                0 <= i < old(self).routes_spec().len() ==> #[trigger] final(self).routes_spec()[i]
                    == attach_address_info_to_route(old(self).routes_spec()[i], info@),
            final(self).is_loading == old(self).is_loading,
            final(self).address2ens_id@ == old(self).address2ens_id@.insert(
                info@.address,
                info@.ens_id,
            ),
            same_ui_state(*old(self), *final(self)),
            old(self).wf() ==> final(self).wf(),
    {
        let name = match &info.ens_id {
            Some(s) => Some(s.clone()),
            None => None,
        };
        self.address2ens_id.insert(info.address.clone(), name);
        let n = self.routes.len();
        let mut new_routes: Vec<Route> = Vec::new();
        let mut i: usize = 0;
        while i < n
            invariant
                i <= n,
                self.routes@ == old(self).routes@,
                self.is_loading == old(self).is_loading,
                same_ui_state(*old(self), *self),
                self.address2ens_id@ == old(self).address2ens_id@.insert(
                    info@.address,
                    info@.ens_id,
                ),
                n == self.routes.len(),
                new_routes@.len() == i,
                forall|j: int|
                    0 <= j < i ==> #[trigger] routes_view(new_routes@)[j]
                        == attach_address_info_to_route(old(self).routes_spec()[j], info@),
            decreases n - i,
        {
            let id = self.routes[i].get_id();
            let ab = self.routes[i].get_active_block();
            proof {
                assert(self.routes_spec()[i as int] == self.routes@[i as int]@);
                assert(self.routes_spec()[i as int] == old(self).routes_spec()[i as int]);
            }
            let new_route = match id {
                RouteId::AddressInfo(a) => Route::new(
                    RouteId::AddressInfo(attach_address_info_to_ref_exec(a, &info)),
                    ab,
                ),
                other => Route::new(other, ab),
            };
            proof {
                assert(new_route@ == attach_address_info_to_route(
                    old(self).routes_spec()[i as int],
                    info@,
                ));
                lemma_routes_view_push(new_routes@, new_route);
            }
            new_routes.push(new_route);
            i = i + 1;
        }
        self.routes = new_routes;
        proof {
            if old(self).wf() {
                assert(final(self).routes_spec()[0] == attach_address_info_to_route(
                    old(self).routes_spec()[0],
                    info@,
                ));
            }
        }
    }

    /// Consume one terminal signal from the fetch worker: the shared
    /// loading flag is cleared — whatever the outcome — and the carried
    /// data is reconciled into every stack entry still interested in it. A
    /// failure changes nothing else: the affected view keeps showing its
    /// prior state.
    pub fn process_result(&mut self, result: FetchResult)
        ensures
            !final(self).is_loading,
            final(self).routes_spec().len() == old(self).routes_spec().len(),
            forall|i: int|
                0 <= i < old(self).routes_spec().len() ==> #[trigger] final(self).routes_spec()[i]
                    == crate::reconcile::apply_result_to_route(old(self).routes_spec()[i], result@),
            final(self).address2ens_id@ == (match result@ {
                crate::command::FetchResultV::NameOrAddressInfo { info } => old(
                    self,
                ).address2ens_id@.insert(info.address, info.ens_id),
                _ => old(self).address2ens_id@,
            }),
            same_ui_state(*old(self), *final(self)),
            old(self).wf() ==> final(self).wf(),
    {
        self.is_loading = false;
        match result {
            FetchResult::Block { block } => {
                self.update_routes_with_block(block);
            },
            FetchResult::TransactionWithReceipt { transaction_with_receipt } => {
                self.update_routes_with_transaction(transaction_with_receipt);
            },
            FetchResult::NameOrAddressInfo { info } => {
                self.update_address_info(info);
            },
            FetchResult::BlockReceipts { transaction_receipts } => {
                self.update_block_with_transaction_receipts(transaction_receipts);
            },
            FetchResult::Failure => {},
        }
    }
}

} // verus!
