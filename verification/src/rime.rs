use vstd::prelude::*;

verus! {

/// The strings with which the engine is set up.
pub struct RimeTraits {
    pub shared_data_dir: String,
    pub user_data_dir: String,
    pub app_name: String,
    pub log_dir: String,
    pub distribution_name: String,
    pub distribution_code_name: String,
    pub distribution_version: String,
}

/// The engine's setup strings for a program called `pkg_name` at version
/// `pkg_version`, whose user's home is `home`: user data under
/// `{home}/.local/share/{pkg_name}/rime`, logs under
/// `{home}/.local/share/{pkg_name}/log`, and the application name
/// `rime.{pkg_name}`; the distribution is named by the program.
pub fn rime_traits(home: &str, shared_data_dir: &str, pkg_name: &str, pkg_version: &str) -> (t:
    RimeTraits)
    ensures
        t.shared_data_dir@ == shared_data_dir@,
        t.user_data_dir@ == home@ + "/.local/share/"@ + pkg_name@ + "/rime"@,
        t.log_dir@ == home@ + "/.local/share/"@ + pkg_name@ + "/log"@,
        t.app_name@ == "rime."@ + pkg_name@,
        t.distribution_name@ == pkg_name@,
        t.distribution_code_name@ == pkg_name@,
        t.distribution_version@ == pkg_version@,
{
    let mut base = String::from_str(home);
    base.append("/.local/share/");
    base.append(pkg_name);
    let mut user_data_dir = base.clone();
    user_data_dir.append("/rime");
    let mut log_dir = base;
    log_dir.append("/log");
    let mut app_name = String::from_str("rime.");
    app_name.append(pkg_name);
    RimeTraits {
        shared_data_dir: String::from_str(shared_data_dir),
        user_data_dir,
        app_name,
        log_dir,
        distribution_name: String::from_str(pkg_name),
        distribution_code_name: String::from_str(pkg_name),
        distribution_version: String::from_str(pkg_version),
    }
}

/// What the lifecycle logic knows of the engine wrapper: how many users hold it,
/// whether it was ever initialised, and whether its setup is still alive.
pub struct RimeModel {
    pub rc: usize,
    pub initialized: bool,
    pub live: bool,
}

/// The engine wrapper's shared state: a use count, an "initialised once" flag and
/// whether the engine setup (with its traits) is currently held.
pub struct Rime {
    rc: usize,
    initialized: bool,
    live: bool,
}

impl View for Rime {
    type V = RimeModel;

    closed spec fn view(&self) -> RimeModel {
        RimeModel { rc: self.rc, initialized: self.initialized, live: self.live }
    }
}

/// The state of a wrapper that nobody has used yet.
pub open spec fn fresh_model() -> RimeModel {
    RimeModel { rc: 0, initialized: false, live: false }
}

/// One `init`: the count goes up (wrapping like an atomic add), and the engine
/// is set up only the very first time.
pub open spec fn init_step(m: RimeModel) -> (RimeModel, bool) {
    let setup = !m.initialized;
    (
        RimeModel {
            rc: if m.rc == usize::MAX { 0 } else { (m.rc + 1) as usize },
            initialized: true,
            live: m.live || setup,
        },
        setup,
    )
}

/// One `deinit` (defined where it does not underflow): nothing happens before the
/// first `init`; otherwise the count goes down, and the engine is finalised when
/// the count reaches zero while the setup is still held.
pub open spec fn deinit_step(m: RimeModel) -> (RimeModel, bool) {
    if !m.initialized {
        (m, false)
    } else if m.rc > 1 {
        (RimeModel { rc: (m.rc - 1) as usize, ..m }, false)
    } else if !m.live {
        (RimeModel { rc: 0, ..m }, false)
    } else {
        (RimeModel { rc: 0, initialized: true, live: false }, true)
    }
}

/// Converting the engine's context keeps every field as the engine gave it: the
/// composition's numbers and preedit, the menu's page numbers and highlighted
/// index, the preview and the labels; the last-page flag is set exactly when
/// the engine said one; every candidate read keeps its text (a null text
/// becoming empty) and comment, in the engine's order.
pub proof fn lemma_context_conversion_keeps_fields(r: RawContext)
    requires
        raw_menu_complete(r.menu),
    ensures
        context_of(r).composition.length == r.composition.length,
        context_of(r).composition.cursor_pos == r.composition.cursor_pos,
        context_of(r).composition.sel_start == r.composition.sel_start,
        context_of(r).composition.sel_end == r.composition.sel_end,
        r.composition.preedit is None ==> context_of(r).composition.preedit is None,
        r.composition.preedit is Some ==> context_of(r).composition.preedit == Some(
            r.composition.preedit->0@,
        ),
        context_of(r).menu.page_size == r.menu.page_size,
        context_of(r).menu.page_no == r.menu.page_no,
        context_of(r).menu.highlighted_candidate_index == r.menu.highlighted_candidate_index,
        context_of(r).menu.is_last_page <==> r.menu.is_last_page == 1,
        r.menu.candidates is None || r.menu.num_candidates <= 0 ==> context_of(
            r,
        ).menu.candidates.len() == 0,
        r.menu.candidates is Some && r.menu.num_candidates > 0 ==> {
            &&& context_of(r).menu.candidates.len() == r.menu.candidates->0@.len()
            &&& forall|i: int|
                0 <= i < r.menu.candidates->0@.len() ==> {
                    let raw_c = #[trigger] r.menu.candidates->0@[i];
                    let c = context_of(r).menu.candidates[i];
                    &&& (raw_c.text is Some ==> c.text == raw_c.text->0@)
                    &&& (raw_c.text is None ==> c.text.len() == 0)
                    &&& (raw_c.comment is None ==> c.comment is None)
                    &&& (raw_c.comment is Some ==> c.comment == Some(raw_c.comment->0@))
                }
        },
        r.select_labels is None ==> context_of(r).select_labels.len() == 0,
        r.select_labels is Some ==> {
            &&& context_of(r).select_labels.len() == r.select_labels->0@.len()
            &&& forall|i: int|
                0 <= i < r.select_labels->0@.len() ==> context_of(r).select_labels[i]
                    == (#[trigger] r.select_labels->0@[i])@
        },
{
    if r.menu.candidates is Some && r.menu.num_candidates > 0 {
        assert(r.menu.candidates->0@.take(r.menu.num_candidates as int)
            =~= r.menu.candidates->0@);
    }
}

/// `n` uses of `init` after `m`.
pub open spec fn inits(m: RimeModel, n: nat) -> RimeModel
    decreases n,
{
    if n == 0 {
        m
    } else {
        init_step(inits(m, (n - 1) as nat)).0
    }
}

/// `n` uses of `deinit` after `m`.
pub open spec fn deinits(m: RimeModel, n: nat) -> RimeModel
    decreases n,
{
    if n == 0 {
        m
    } else {
        deinit_step(deinits(m, (n - 1) as nat)).0
    }
}

/// A live wrapper with `rc` users.
pub open spec fn live_model(rc: usize) -> RimeModel {
    RimeModel { rc, initialized: true, live: true }
}

/// The engine is set up by an `init` exactly when it was never initialised, and
/// finalised by a `deinit` exactly when the last user of a live setup leaves.
pub proof fn lemma_setup_and_finalize_conditions(m: RimeModel)
    ensures
        init_step(m).1 <==> !m.initialized,
        !(m.initialized && m.rc == 0) ==> (deinit_step(m).1 <==> (m.initialized && m.rc == 1
            && m.live)),
{
}

/// One more `init` followed by one `deinit` gives back the state of a live,
/// used engine, with neither a setup nor a finalisation.
pub proof fn lemma_init_then_deinit(m: RimeModel)
    requires
        m.initialized,
        m.live,
        1 <= m.rc < usize::MAX,
    ensures
        !init_step(m).1,
        deinit_step(init_step(m).0) == (m, false),
{
}

proof fn lemma_inits_from_fresh(n: nat)
    requires
        1 <= n <= usize::MAX,
    ensures
        inits(fresh_model(), n) == live_model(n as usize),
    decreases n,
{
    if n > 1 {
        lemma_inits_from_fresh((n - 1) as nat);
    } else {
        assert(inits(fresh_model(), 0) == fresh_model());
    }
}

proof fn lemma_deinits_from_live(n: nat, k: nat)
    requires
        1 <= n <= usize::MAX,
        k < n,
    ensures
        deinits(live_model(n as usize), k) == live_model((n - k) as usize),
    decreases k,
{
    if k > 0 {
        lemma_deinits_from_live(n, (k - 1) as nat);
    }
}

/// The state after a sequence of uses, each `true` for an `init` and `false`
/// for a `deinit`, one after the other.
pub open spec fn uses(m: RimeModel, ops: Seq<bool>) -> RimeModel
    decreases ops.len(),
{
    if ops.len() == 0 {
        m
    } else {
        let before = uses(m, ops.drop_last());
        if ops.last() {
            init_step(before).0
        } else {
            deinit_step(before).0
        }
    }
}

/// Once `init` has run, the wrapper stays initialised: `init` always leaves it
/// initialised, and no sequence of further `init` and `deinit` uses makes it
/// uninitialised again.
pub proof fn lemma_initialized_stays(m: RimeModel, ops: Seq<bool>)
    ensures
        init_step(m).0.initialized,
        m.initialized ==> uses(m, ops).initialized,
        uses(init_step(m).0, ops).initialized,
    decreases ops.len(),
{
    if ops.len() > 0 {
        lemma_initialized_stays(m, ops.drop_last());
    }
}

/// From a fresh wrapper, `n` uses of `init` followed by `n` uses of `deinit`:
/// only the first `init` sets the engine up, only the last `deinit` finalises it,
/// and afterwards no `init` sets it up again (the wrapper stays initialised).
pub proof fn lemma_balanced_use(n: nat)
    requires
        1 <= n <= usize::MAX,
    ensures
        forall|k: nat| k < n ==> (#[trigger] init_step(inits(fresh_model(), k)).1 <==> k == 0),
        inits(fresh_model(), n) == live_model(n as usize),
        forall|k: nat|
            k < n ==> (#[trigger] deinit_step(deinits(inits(fresh_model(), n), k)).1 <==> k == (n
                - 1) as nat),
        deinits(inits(fresh_model(), n), n) == (RimeModel {
            rc: 0,
            initialized: true,
            live: false,
        }),
        !init_step(deinits(inits(fresh_model(), n), n)).1,
{
    lemma_inits_from_fresh(n);
    assert forall|k: nat| k < n implies (#[trigger] init_step(inits(fresh_model(), k)).1
        <==> k == 0) by {
        if k > 0 {
            lemma_inits_from_fresh(k);
        }
    }
    assert forall|k: nat| k < n implies (#[trigger] deinit_step(
        deinits(inits(fresh_model(), n), k),
    ).1 <==> k == (n - 1) as nat) by {
        lemma_deinits_from_live(n, k);
    }
    lemma_deinits_from_live(n, (n - 1) as nat);
}

impl Rime {
    /// The wrapper before any use.
    pub fn new() -> (r: Rime)
        ensures
            r@ == fresh_model(),
    {
        Rime { rc: 0, initialized: false, live: false }
    }

    /// Registers one more user. Returns whether the engine must now be set up
    /// (setup, initialise, run maintenance) with freshly built traits.
    pub fn init(&mut self) -> (setup: bool)
        ensures
            (final(self)@, setup) == init_step(old(self)@),
    {
        self.rc = self.rc.wrapping_add(1);
        if self.initialized {
            return false;
        }
        self.initialized = true;
        self.live = true;
        true
    }

    /// Drops one user. Returns whether the engine must now clean up all sessions,
    /// finalise and release its traits.
    pub fn deinit(&mut self) -> (finalize: bool)
        requires
            !(old(self)@.initialized && old(self)@.rc == 0),
        ensures
            (final(self)@, finalize) == deinit_step(old(self)@),
    {
        if !self.initialized {
            return false;
        }
        let previous = self.rc;
        self.rc = previous - 1;
        if previous - 1 > 0 {
            return false;
        }
        if !self.live {
            return false;
        }
        self.live = false;
        true
    }

    /// The request to open a new session; its reply becomes a `RimeSessionId`.
    pub fn create_session(&self) -> (call: RimeCall)
        requires
            self@.initialized,
        ensures
            call == RimeCall::CreateSession,
    {
        RimeCall::CreateSession
    }

    /// The request to close a session; the engine must report success.
    pub fn destroy_session(&self, session_id: &RimeSessionId) -> (call: RimeCall)
        requires
            self@.initialized,
        ensures
            call == (RimeCall::DestroySession { session: session_id@ }),
    {
        RimeCall::DestroySession { session: session_id.raw() }
    }

    /// The request to drop what a session is composing.
    pub fn clear_composition(&self, session_id: &RimeSessionId) -> (call: RimeCall)
        requires
            self@.initialized,
        ensures
            call == (RimeCall::ClearComposition { session: session_id@ }),
    {
        RimeCall::ClearComposition { session: session_id.raw() }
    }

    /// The request for a session's committed text; see `commit_reply`.
    pub fn get_commit(&self, session_id: &RimeSessionId) -> (call: RimeCall)
        requires
            self@.initialized,
        ensures
            call == (RimeCall::GetCommit { session: session_id@ }),
    {
        RimeCall::GetCommit { session: session_id.raw() }
    }

    /// The request for a session's context; see `context_reply`.
    pub fn get_context(&self, session_id: &RimeSessionId) -> (call: RimeCall)
        requires
            self@.initialized,
        ensures
            call == (RimeCall::GetContext { session: session_id@ }),
    {
        RimeCall::GetContext { session: session_id.raw() }
    }

    /// The request to feed a key symbol with its modifier mask to a session;
    /// both must fit the engine's `int`. See `key_reply`.
    pub fn process_key(session_id: &RimeSessionId, key: u32, mods: u32) -> (call: RimeCall)
        requires
            key <= i32::MAX,
            mods <= i32::MAX,
        ensures
            call == (RimeCall::ProcessKey {
                session: session_id@,
                keycode: key as i32,
                mask: mods as i32,
            }),
    {
        RimeCall::ProcessKey { session: session_id.raw(), keycode: key as i32, mask: mods as i32 }
    }

    /// The committed text, from the engine's answer to `get_commit`: nothing when
    /// the engine reports no commit, else its text, which must not be null.
    pub fn commit_reply(found: i32, raw: &RawCommit) -> (commit: Option<RimeCommit>)
        requires
            found != 0 ==> raw.text is Some,
        ensures
            match commit {
                Some(c) => found != 0 && c.text@ == raw.text->0@,
                None => found == 0,
            },
    {
        if found == 0 {
            return None;
        }
        Some(RimeCommit::from_raw(raw))
    }

    /// The context, from the engine's answer to `get_context`: nothing when the
    /// engine reports failure, else the converted record.
    pub fn context_reply(found: i32, raw: &RawContext) -> (context: Option<RimeContext>)
        requires
            found != 0 ==> raw_menu_complete(raw.menu),
        ensures
            match context {
                Some(c) => found != 0 && c@ == context_of(*raw),
                None => found == 0,
            },
    {
        if found == 0 {
            return None;
        }
        Some(RimeContext::from_raw(raw))
    }

    /// Whether the engine handled a key: its answer to `process_key` is one.
    pub fn key_reply(ret: i32) -> (handled: bool)
        ensures
            handled == (ret == 1),
    {
        ret == 1
    }

    /// The number of users that `init` registered and `deinit` did not drop.
    pub fn users(&self) -> (n: usize)
        ensures
            n == self@.rc,
    {
        self.rc
    }

    /// Whether `init` has ever been called.
    pub fn is_init(&self) -> (r: bool)
        ensures
            r == self@.initialized,
    {
        self.initialized
    }
}


/// A session of the engine, by the id that the engine handed out.
pub struct RimeSessionId {
    raw: usize,
}

impl View for RimeSessionId {
    type V = usize;

    closed spec fn view(&self) -> usize {
        self.raw
    }
}

impl RimeSessionId {
    /// Wraps the id that the engine's `create_session` returned.
    pub fn from_raw(raw: usize) -> (id: RimeSessionId)
        ensures
            id@ == raw,
    {
        RimeSessionId { raw }
    }

    /// The id to hand back to the engine.
    pub fn raw(&self) -> (r: usize)
        ensures
            r == self@,
    {
        self.raw
    }
}

/// A call into the engine that the library has decided on; the application
/// performs it and hands the reply back.
#[derive(PartialEq, Eq, Structural, Debug, Clone, Copy)]
pub enum RimeCall {
    CreateSession,
    DestroySession { session: usize },
    ClearComposition { session: usize },
    GetCommit { session: usize },
    GetContext { session: usize },
    ProcessKey { session: usize, keycode: i32, mask: i32 },
}

/// The engine's commit record as read from its pointers (`None` for a null string).
pub struct RawCommit {
    pub text: Option<String>,
}

/// The engine's candidate record as read from its pointers.
pub struct RawCandidate {
    pub text: Option<String>,
    pub comment: Option<String>,
}

/// The engine's menu record. `candidates` is `None` for a null array; otherwise
/// it holds the `num_candidates` entries that the array starts with (none when
/// that count is not positive), as `candidates_to_read` says.
pub struct RawMenu {
    pub page_size: i32,
    pub page_no: i32,
    pub is_last_page: i32,
    pub highlighted_candidate_index: i32,
    pub num_candidates: i32,
    pub candidates: Option<Vec<RawCandidate>>,
    pub select_keys: Option<String>,
}

/// The engine's composition record.
pub struct RawComposition {
    pub length: i32,
    pub cursor_pos: i32,
    pub sel_start: i32,
    pub sel_end: i32,
    pub preedit: Option<String>,
}

/// The engine's context record. `select_labels` is `None` for a null array,
/// otherwise the labels before its terminating null entry.
pub struct RawContext {
    pub composition: RawComposition,
    pub menu: RawMenu,
    pub commit_text_preview: Option<String>,
    pub select_labels: Option<Vec<String>>,
}

/// Text that the engine has committed.
pub struct RimeCommit {
    pub text: String,
}

/// One entry of the candidate menu.
pub struct RimeCandidate {
    pub text: String,
    comment: Option<String>,
}

/// The candidate menu of a context.
pub struct RimeMenu {
    pub page_size: i32,
    pub page_no: i32,
    is_last_page: bool,
    pub highlighted_candidate_index: i32,
    pub candidates: Vec<RimeCandidate>,
    select_keys: Option<String>,
}

/// The text being composed.
pub struct RimeComposition {
    pub length: i32,
    pub cursor_pos: i32,
    pub sel_start: i32,
    pub sel_end: i32,
    pub preedit: Option<String>,
}

/// What a session shows while composing.
pub struct RimeContext {
    pub composition: RimeComposition,
    pub menu: RimeMenu,
    commit_text_preview: Option<String>,
    select_labels: Vec<String>,
}

/// A string read from the engine, with a null string read as empty.
pub open spec fn text_or_empty(s: Option<String>) -> Seq<char> {
    match s {
        Some(t) => t@,
        None => Seq::empty(),
    }
}

/// The characters of an optional string.
pub open spec fn opt_chars(s: Option<String>) -> Option<Seq<char>> {
    match s {
        Some(t) => Some(t@),
        None => None,
    }
}

/// How many candidate entries the menu conversion reads from the engine's array.
pub open spec fn menu_len(has_candidates: bool, num_candidates: i32) -> int {
    if has_candidates && num_candidates > 0 {
        num_candidates as int
    } else {
        0
    }
}

/// A candidate as text and optional comment.
pub struct CandidateView {
    pub text: Seq<char>,
    pub comment: Option<Seq<char>>,
}

/// A menu with its candidates seen through their views.
pub struct MenuView {
    pub page_size: i32,
    pub page_no: i32,
    pub is_last_page: bool,
    pub highlighted_candidate_index: i32,
    pub candidates: Seq<CandidateView>,
    pub select_keys: Option<Seq<char>>,
}

/// A composition with its preedit seen as characters.
pub struct CompositionView {
    pub length: i32,
    pub cursor_pos: i32,
    pub sel_start: i32,
    pub sel_end: i32,
    pub preedit: Option<Seq<char>>,
}

/// A context seen through the views of its parts.
pub struct ContextView {
    pub composition: CompositionView,
    pub menu: MenuView,
    pub commit_text_preview: Option<Seq<char>>,
    pub select_labels: Seq<Seq<char>>,
}

impl View for RimeCandidate {
    type V = CandidateView;

    closed spec fn view(&self) -> CandidateView {
        CandidateView { text: self.text@, comment: opt_chars(self.comment) }
    }
}

impl View for RimeMenu {
    type V = MenuView;

    closed spec fn view(&self) -> MenuView {
        MenuView {
            page_size: self.page_size,
            page_no: self.page_no,
            is_last_page: self.is_last_page,
            highlighted_candidate_index: self.highlighted_candidate_index,
            candidates: self.candidates@.map_values(|c: RimeCandidate| c@),
            select_keys: opt_chars(self.select_keys),
        }
    }
}

impl View for RimeComposition {
    type V = CompositionView;

    open spec fn view(&self) -> CompositionView {
        CompositionView {
            length: self.length,
            cursor_pos: self.cursor_pos,
            sel_start: self.sel_start,
            sel_end: self.sel_end,
            preedit: opt_chars(self.preedit),
        }
    }
}

impl View for RimeContext {
    type V = ContextView;

    closed spec fn view(&self) -> ContextView {
        ContextView {
            composition: self.composition@,
            menu: self.menu@,
            commit_text_preview: opt_chars(self.commit_text_preview),
            select_labels: self.select_labels@.map_values(|l: String| l@),
        }
    }
}

/// The conversion of the engine's candidate: a null text becomes empty.
pub open spec fn candidate_of(r: RawCandidate) -> CandidateView {
    CandidateView { text: text_or_empty(r.text), comment: opt_chars(r.comment) }
}

/// The conversion of the engine's menu: the last-page flag is the engine's
/// boolean being one, and the first `menu_len` entries become the candidates.
pub open spec fn menu_of(r: RawMenu) -> MenuView {
    MenuView {
        page_size: r.page_size,
        page_no: r.page_no,
        is_last_page: r.is_last_page == 1,
        highlighted_candidate_index: r.highlighted_candidate_index,
        candidates: if menu_len(r.candidates is Some, r.num_candidates) > 0 {
            r.candidates->0@.take(r.num_candidates as int).map_values(
                |c: RawCandidate| candidate_of(c),
            )
        } else {
            Seq::empty()
        },
        select_keys: opt_chars(r.select_keys),
    }
}

/// The conversion of the engine's composition.
pub open spec fn composition_of(r: RawComposition) -> CompositionView {
    CompositionView {
        length: r.length,
        cursor_pos: r.cursor_pos,
        sel_start: r.sel_start,
        sel_end: r.sel_end,
        preedit: opt_chars(r.preedit),
    }
}

/// The conversion of the engine's context; a null label array gives no labels.
pub open spec fn context_of(r: RawContext) -> ContextView {
    ContextView {
        composition: composition_of(r.composition),
        menu: menu_of(r.menu),
        commit_text_preview: opt_chars(r.commit_text_preview),
        select_labels: match r.select_labels {
            Some(v) => v@.map_values(|l: String| l@),
            None => Seq::empty(),
        },
    }
}

/// The engine's menu record holds the entries that its count announces.
pub open spec fn raw_menu_complete(r: RawMenu) -> bool {
    r.candidates is Some && r.num_candidates > 0 ==> r.candidates->0@.len()
        == r.num_candidates
}

fn clone_text(s: &Option<String>) -> (r: Option<String>)
    ensures
        r == *s,
{
    match s {
        Some(t) => Some(t.clone()),
        None => None,
    }
}

/// How many entries of the engine's candidate array the menu conversion reads:
/// none for a null array or a count that is not positive, else the count.
pub fn candidates_to_read(has_candidates: bool, num_candidates: i32) -> (n: usize)
    ensures
        n == menu_len(has_candidates, num_candidates),
{
    if has_candidates && num_candidates > 0 {
        num_candidates as usize
    } else {
        0
    }
}

impl RimeCommit {
    /// Converts the engine's commit record, whose text must not be null.
    pub fn from_raw(raw: &RawCommit) -> (c: RimeCommit)
        requires
            raw.text is Some,
        ensures
            c.text@ == raw.text->0@,
    {
        match &raw.text {
            Some(t) => RimeCommit { text: t.clone() },
            None => RimeCommit { text: String::new() },
        }
    }
}

impl RimeCandidate {
    /// Converts the engine's candidate record; a null text becomes empty.
    pub fn from_raw(raw: &RawCandidate) -> (c: RimeCandidate)
        ensures
            c@ == candidate_of(*raw),
    {
        let text = match &raw.text {
            Some(t) => t.clone(),
            None => String::new(),
        };
        RimeCandidate { text, comment: clone_text(&raw.comment) }
    }

    /// The candidate's text.
    pub fn text(&self) -> (t: &String)
        ensures
            t@ == self@.text,
    {
        &self.text
    }
}

impl RimeMenu {
    /// Converts the engine's menu record.
    pub fn from_raw(raw: &RawMenu) -> (m: RimeMenu)
        requires
            raw_menu_complete(*raw),
        ensures
            m@ == menu_of(*raw),
    {
        let mut candidates: Vec<RimeCandidate> = Vec::new();
        let n = candidates_to_read(raw.candidates.is_some(), raw.num_candidates);
        match &raw.candidates {
            Some(v) => {
                let mut i: usize = 0;
                while i < n
                    invariant
                        n == menu_len(true, raw.num_candidates),
                        n <= v@.len(),
                        i <= n,
                        candidates@.map_values(|c: RimeCandidate| c@) =~= v@.take(
                            i as int,
                        ).map_values(|c: RawCandidate| candidate_of(c)),
                    decreases n - i,
                {
                    let c = RimeCandidate::from_raw(&v[i]);
                    let ghost before = candidates@;
                    let ghost cv = c@;
                    candidates.push(c);
                    assert(v@.take(i + 1) =~= v@.take(i as int).push(v@[i as int]));
                    assert(v@.take(i + 1).map_values(|c: RawCandidate| candidate_of(c))
                        =~= v@.take(i as int).map_values(|c: RawCandidate| candidate_of(c)).push(
                        cv,
                    ));
                    assert(candidates@.map_values(|c: RimeCandidate| c@) =~= before.map_values(
                        |c: RimeCandidate| c@,
                    ).push(cv));
                    i += 1;
                }
            },
            None => {},
        }
        let m = RimeMenu {
            page_size: raw.page_size,
            page_no: raw.page_no,
            is_last_page: raw.is_last_page == 1,
            highlighted_candidate_index: raw.highlighted_candidate_index,
            candidates,
            select_keys: clone_text(&raw.select_keys),
        };
        assert(m@.candidates =~= menu_of(*raw).candidates);
        m
    }

    /// The number of candidates on the page.
    pub fn len(&self) -> (n: usize)
        ensures
            n == self@.candidates.len(),
    {
        self.candidates.len()
    }

    /// The candidate at `i` on the page.
    pub fn candidate(&self, i: usize) -> (c: &RimeCandidate)
        requires
            i < self@.candidates.len(),
        ensures
            c@ == self@.candidates[i as int],
    {
        &self.candidates[i]
    }

    /// The index of the highlighted candidate, as the engine gave it.
    pub fn highlighted(&self) -> (h: i32)
        ensures
            h == self@.highlighted_candidate_index,
    {
        self.highlighted_candidate_index
    }
}

impl RimeComposition {
    /// Converts the engine's composition record.
    pub fn from_raw(raw: &RawComposition) -> (c: RimeComposition)
        ensures
            c@ == composition_of(*raw),
            c.length == raw.length,
            c.cursor_pos == raw.cursor_pos,
            c.sel_start == raw.sel_start,
            c.sel_end == raw.sel_end,
            c.preedit == raw.preedit,
    {
        RimeComposition {
            length: raw.length,
            cursor_pos: raw.cursor_pos,
            sel_start: raw.sel_start,
            sel_end: raw.sel_end,
            preedit: clone_text(&raw.preedit),
        }
    }
}

impl RimeContext {
    /// Converts the engine's context record.
    pub fn from_raw(raw: &RawContext) -> (c: RimeContext)
        requires
            raw_menu_complete(raw.menu),
        ensures
            c@ == context_of(*raw),
            c@.composition.length == raw.composition.length,
            c@.composition.cursor_pos == raw.composition.cursor_pos,
            c@.composition.sel_start == raw.composition.sel_start,
            c@.composition.sel_end == raw.composition.sel_end,
    {
        let mut select_labels: Vec<String> = Vec::new();
        match &raw.select_labels {
            Some(v) => {
                let mut i: usize = 0;
                while i < v.len()
                    invariant
                        i <= v@.len(),
                        select_labels@ =~= v@.subrange(0, i as int),
                    decreases v@.len() - i,
                {
                    select_labels.push(v[i].clone());
                    i += 1;
                }
                assert(v@.subrange(0, v@.len() as int) =~= v@);
            },
            None => {},
        }
        let c = RimeContext {
            composition: RimeComposition::from_raw(&raw.composition),
            menu: RimeMenu::from_raw(&raw.menu),
            commit_text_preview: clone_text(&raw.commit_text_preview),
            select_labels,
        };
        assert(c@.select_labels =~= context_of(*raw).select_labels);
        c
    }

    /// The composition being edited.
    pub fn composition(&self) -> (c: &RimeComposition)
        ensures
            c@ == self@.composition,
    {
        &self.composition
    }

    /// The candidate menu.
    pub fn menu(&self) -> (m: &RimeMenu)
        ensures
            m@ == self@.menu,
    {
        &self.menu
    }
}

} // verus!
