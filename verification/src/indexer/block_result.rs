//! Block results as the indexer reads them: the events that a block emitted,
//! the attributes of the transactions they report, and whether a wrapper or an
//! inner transaction was applied.
use vstd::prelude::*;

use crate::indexer::id::{Id, IdView};
use crate::text::{
    decimal_u64, find_last_key, last_key_index, lemma_last_key_index_bounds, lowercase, parse_u64,
    str_equal, to_lowercase,
};

verus! {

/// The kind of an event, read from its kind text.
#[derive(Debug, Clone, Copy, PartialEq, Eq, Structural)]
pub enum EventKind {
    Applied,
    Unknown,
}

/// The event kind that the kind text `s` names: only `tx/applied` is known.
pub open spec fn event_kind_of(s: Seq<char>) -> EventKind {
    if s == "tx/applied"@ {
        EventKind::Applied
    } else {
        EventKind::Unknown
    }
}

impl<'a> From<&'a String> for EventKind {
    fn from(value: &'a String) -> (r: EventKind) {
        if str_equal(value.as_str(), "tx/applied") {
            EventKind::Applied
        } else {
            EventKind::Unknown
        }
    }
}

impl<'a> vstd::std_specs::convert::FromSpecImpl<&'a String> for EventKind {
    open spec fn obeys_from_spec() -> bool {
        true
    }

    open spec fn from_spec(v: &'a String) -> EventKind {
        event_kind_of(v@)
    }
}

/// The status code that a transaction event reports.
#[derive(Debug, Clone, Copy, PartialEq, Eq, Structural)]
pub enum TxEventStatusCode {
    Success,
    Fail,
}

/// The status code that the code text `s` names: `0` and `1` are success,
/// anything else is failure.
pub open spec fn status_code_of(s: Seq<char>) -> TxEventStatusCode {
    if s == "0"@ || s == "1"@ {
        TxEventStatusCode::Success
    } else {
        TxEventStatusCode::Fail
    }
}

impl<'a> From<&'a str> for TxEventStatusCode {
    fn from(value: &'a str) -> (r: TxEventStatusCode) {
        if str_equal(value, "0") || str_equal(value, "1") {
            TxEventStatusCode::Success
        } else {
            TxEventStatusCode::Fail
        }
    }
}

impl<'a> vstd::std_specs::convert::FromSpecImpl<&'a str> for TxEventStatusCode {
    open spec fn obeys_from_spec() -> bool {
        true
    }

    open spec fn from_spec(v: &'a str) -> TxEventStatusCode {
        status_code_of(v@)
    }
}

impl Default for TxEventStatusCode {
    fn default() -> (r: TxEventStatusCode)
        ensures
            r == TxEventStatusCode::Fail,
    {
        TxEventStatusCode::Fail
    }
}

/// Whether a transaction was applied or rejected.
#[derive(Debug, Clone, Copy, PartialEq, Eq, Structural)]
pub enum TransactionExitStatus {
    Applied,
    Rejected,
}

/// The exit status that a status code stands for.
pub open spec fn exit_status_of(code: TxEventStatusCode) -> TransactionExitStatus {
    match code {
        TxEventStatusCode::Success => TransactionExitStatus::Applied,
        TxEventStatusCode::Fail => TransactionExitStatus::Rejected,
    }
}

/// The display text of an exit status.
pub open spec fn exit_status_text(s: TransactionExitStatus) -> Seq<char> {
    match s {
        TransactionExitStatus::Applied => "Applied"@,
        TransactionExitStatus::Rejected => "Rejected"@,
    }
}

impl From<TxEventStatusCode> for TransactionExitStatus {
    fn from(value: TxEventStatusCode) -> (r: TransactionExitStatus) {
        match value {
            TxEventStatusCode::Success => TransactionExitStatus::Applied,
            TxEventStatusCode::Fail => TransactionExitStatus::Rejected,
        }
    }
}

impl vstd::std_specs::convert::FromSpecImpl<TxEventStatusCode> for TransactionExitStatus {
    open spec fn obeys_from_spec() -> bool {
        true
    }

    open spec fn from_spec(v: TxEventStatusCode) -> TransactionExitStatus {
        exit_status_of(v)
    }
}

impl TransactionExitStatus {
    /// The status as display text: `Applied` or `Rejected`.
    pub fn to_string(&self) -> (r: String)
        ensures
            r@ == exit_status_text(*self),
    {
        match self {
            TransactionExitStatus::Applied => "Applied".to_owned(),
            TransactionExitStatus::Rejected => "Rejected".to_owned(),
        }
    }
}

/// The map that inserting the pairs of `s` one after another, into an empty
/// map, builds: a later pair for an identifier replaces an earlier one.
pub open spec fn result_map(s: Seq<(Id, bool)>) -> Map<IdView, bool>
    decreases s.len(),
{
    if s.len() == 0 {
        Map::empty()
    } else {
        result_map(s.drop_last()).insert(s.last().0@, s.last().1)
    }
}

/// The map that inserting the pairs of `s` one after another builds.
pub open spec fn error_map(s: Seq<(Id, String)>) -> Map<IdView, Seq<char>>
    decreases s.len(),
{
    if s.len() == 0 {
        Map::empty()
    } else {
        error_map(s.drop_last()).insert(s.last().0@, s.last().1@)
    }
}

/// The map that inserting the pairs of `s` one after another builds, each
/// list of errors read as a map in turn.
pub open spec fn batch_error_map(s: Seq<(Id, Vec<(Id, String)>)>) -> Map<IdView, Map<IdView, Seq<char>>>
    decreases s.len(),
{
    if s.len() == 0 {
        Map::empty()
    } else {
        batch_error_map(s.drop_last()).insert(s.last().0@, error_map(s.last().1@))
    }
}

/// What a node reports of an inner transaction that it ran: whether it was
/// accepted, and the errors of the validity predicates, each under the
/// address of its account.
pub struct InnerTxReport {
    pub accepted: bool,
    pub vp_errors: Vec<(Id, String)>,
}

/// The outcome of one inner transaction of a batch: its identifier and the
/// node's report, which is absent where the transaction failed to run.
pub struct InnerTxOutcome {
    pub id: Id,
    pub report: Option<InnerTxReport>,
}

/// Whether an outcome counts as a success: it ran and was accepted.
pub open spec fn outcome_accepted(o: InnerTxOutcome) -> bool {
    match o.report {
        Some(r) => r.accepted,
        None => false,
    }
}

/// The validity predicate errors of an outcome; none where it failed to run.
pub open spec fn outcome_errors(o: InnerTxOutcome) -> Map<IdView, Seq<char>> {
    match o.report {
        Some(r) => error_map(r.vp_errors@),
        None => Map::empty(),
    }
}

/// Success of each inner transaction of `s`, a later outcome for an
/// identifier replacing an earlier one.
pub open spec fn outcome_results(s: Seq<InnerTxOutcome>) -> Map<IdView, bool>
    decreases s.len(),
{
    if s.len() == 0 {
        Map::empty()
    } else {
        outcome_results(s.drop_last()).insert(s.last().id@, outcome_accepted(s.last()))
    }
}

/// Errors of each inner transaction of `s`, a later outcome for an
/// identifier replacing an earlier one.
pub open spec fn outcome_error_map(s: Seq<InnerTxOutcome>) -> Map<IdView, Map<IdView, Seq<char>>>
    decreases s.len(),
{
    if s.len() == 0 {
        Map::empty()
    } else {
        outcome_error_map(s.drop_last()).insert(s.last().id@, outcome_errors(s.last()))
    }
}

/// The results of the inner transactions of a batch: for each, whether it
/// succeeded and which validity predicate errors it raised.
#[derive(Debug)]
pub struct BatchResults {
    batch_errors: Vec<(Id, Vec<(Id, String)>)>,
    batch_results: Vec<(Id, bool)>,
}

impl BatchResults {
    /// Whether each inner transaction succeeded, by identifier.
    pub closed spec fn results(&self) -> Map<IdView, bool> {
        result_map(self.batch_results@)
    }

    /// The validity predicate errors of each inner transaction, by
    /// identifier.
    pub closed spec fn errors(&self) -> Map<IdView, Map<IdView, Seq<char>>> {
        batch_error_map(self.batch_errors@)
    }

    /// The results of an empty batch.
    pub fn new() -> (r: BatchResults)
        ensures
            r.results() == Map::<IdView, bool>::empty(),
            r.errors() == Map::<IdView, Map<IdView, Seq<char>>>::empty(),
    {
        BatchResults { batch_errors: Vec::new(), batch_results: Vec::new() }
    }

    /// The results of a batch from the outcomes of its inner transactions:
    /// an inner transaction succeeded where it ran and was accepted; its
    /// errors are those of its validity predicates, none where it did not run.
    pub fn from_outcomes(outcomes: &Vec<InnerTxOutcome>) -> (r: BatchResults)
        ensures
            r.results() == outcome_results(outcomes@),
            r.errors() == outcome_error_map(outcomes@),
    {
        let mut batch_results: Vec<(Id, bool)> = Vec::new();
        let mut batch_errors: Vec<(Id, Vec<(Id, String)>)> = Vec::new();
        let n = outcomes.len();
        let mut k: usize = 0;
        assert(outcomes@.take(0) =~= Seq::<InnerTxOutcome>::empty());
        while k < n
            invariant
                n == outcomes.len(),
                k <= n,
                result_map(batch_results@) == outcome_results(outcomes@.take(k as int)),
                batch_error_map(batch_errors@) == outcome_error_map(outcomes@.take(k as int)),
            decreases n - k,
        {
            let o = &outcomes[k];
            let (accepted, errors) = match &o.report {
                Some(report) => (report.accepted, clone_errors(&report.vp_errors)),
                None => (false, Vec::new()),
            };
            proof {
                if o.report is None {
                    assert(error_map(errors@) =~= Map::<IdView, Seq<char>>::empty());
                }
            }
            let ghost old_results = batch_results@;
            let ghost old_errors = batch_errors@;
            batch_results.push((o.id.clone(), accepted));
            batch_errors.push((o.id.clone(), errors));
            assert(batch_results@.drop_last() =~= old_results);
            assert(batch_errors@.drop_last() =~= old_errors);
            assert(outcomes@.take(k + 1).drop_last() =~= outcomes@.take(k as int));
            k = k + 1;
        }
        assert(outcomes@.take(n as int) =~= outcomes@);
        BatchResults { batch_errors, batch_results }
    }

    /// Whether the inner transaction `tx_id` succeeded; `false` for one that
    /// the batch does not hold.
    pub fn is_successful(&self, tx_id: &Id) -> (r: bool)
        ensures
            r == (self.results().contains_key(tx_id@) && self.results()[tx_id@]),
    {
        let mut i = self.batch_results.len();
        assert(self.batch_results@.take(i as int) =~= self.batch_results@);
        while i > 0
            invariant
                i <= self.batch_results.len(),
                result_map(self.batch_results@.take(i as int)).contains_key(tx_id@)
                    == self.results().contains_key(tx_id@),
                result_map(self.batch_results@.take(i as int)).contains_key(tx_id@)
                    ==> result_map(self.batch_results@.take(i as int))[tx_id@]
                    == self.results()[tx_id@],
            decreases i,
        {
            let ghost t = self.batch_results@.take(i as int);
            assert(t.drop_last() =~= self.batch_results@.take(i - 1));
            if self.batch_results[i - 1].0 == *tx_id {
                return self.batch_results[i - 1].1;
            }
            i = i - 1;
        }
        false
    }
}

impl Default for BatchResults {
    fn default() -> (r: BatchResults)
        ensures
            r.results() == Map::<IdView, bool>::empty(),
            r.errors() == Map::<IdView, Map<IdView, Seq<char>>>::empty(),
    {
        BatchResults::new()
    }
}

/// A copy of a list of validity predicate errors.
fn clone_errors(errors: &Vec<(Id, String)>) -> (r: Vec<(Id, String)>)
    ensures
        r@ == errors@,
{
    let mut r: Vec<(Id, String)> = Vec::new();
    let n = errors.len();
    let mut k: usize = 0;
    while k < n
        invariant
            n == errors.len(),
            k <= n,
            r@ == errors@.take(k as int),
        decreases n - k,
    {
        r.push((errors[k].0.clone(), errors[k].1.clone()));
        assert(r@ =~= errors@.take(k + 1));
        k = k + 1;
    }
    assert(errors@.take(n as int) =~= errors@);
    r
}

/// Whether `attrs` has an attribute with key `key`.
pub open spec fn has_attribute(attrs: Seq<(String, String)>, key: Seq<char>) -> bool {
    last_key_index(attrs, key) >= 0
}

/// The value that `attrs` gives for `key`: that of its last attribute with
/// this key.
pub open spec fn attribute_value(attrs: Seq<(String, String)>, key: Seq<char>) -> Seq<char> {
    attrs[last_key_index(attrs, key)].1@
}

/// Whether the attributes of an applied-transaction event hold everything
/// that reading them needs: a code, the gas used and the height written as
/// decimal numbers, a hash, the batch results and an info text.
pub open spec fn applied_attributes_complete(attrs: Seq<(String, String)>) -> bool {
    &&& has_attribute(attrs, "code"@)
    &&& has_attribute(attrs, "gas_used"@)
    &&& has_attribute(attrs, "hash"@)
    &&& has_attribute(attrs, "height"@)
    &&& has_attribute(attrs, "batch"@)
    &&& has_attribute(attrs, "info"@)
    &&& decimal_u64(attribute_value(attrs, "gas_used"@)) is Some
    &&& decimal_u64(attribute_value(attrs, "height"@)) is Some
}

/// The attributes of a transaction event.
#[derive(Debug)]
pub struct TxAttributes {
    pub code: TxEventStatusCode,
    pub gas: u64,
    pub hash: Id,
    pub height: u64,
    pub batch: BatchResults,
    pub info: String,
}

/// Whether `a` is what the attributes `attrs` of an applied-transaction event
/// say, the batch results being what `decode_batch` makes of the `batch`
/// attribute.
pub open spec fn attributes_read<F: Fn(&String) -> BatchResults>(
    attrs: Seq<(String, String)>,
    decode_batch: F,
    a: TxAttributes,
) -> bool {
    &&& a.code == status_code_of(attribute_value(attrs, "code"@))
    &&& decimal_u64(attribute_value(attrs, "gas_used"@)) == Some(a.gas)
    &&& a.hash@ == IdView::Hash(lowercase(attribute_value(attrs, "hash"@)))
    &&& decimal_u64(attribute_value(attrs, "height"@)) == Some(a.height)
    &&& decode_batch.ensures((&attrs[last_key_index(attrs, "batch"@)].1,), a.batch)
    &&& a.info@ == attribute_value(attrs, "info"@)
}

/// Whether `r` is what reading the attributes `attrs` of an event of kind
/// `kind` gives: nothing for an unknown kind, the transaction's attributes for
/// an applied transaction.
pub open spec fn attributes_deserialized<F: Fn(&String) -> BatchResults>(
    kind: EventKind,
    attrs: Seq<(String, String)>,
    decode_batch: F,
    r: Option<TxAttributes>,
) -> bool {
    match kind {
        EventKind::Unknown => r is None,
        EventKind::Applied => r matches Some(a) && attributes_read(attrs, decode_batch, a),
    }
}

impl TxAttributes {
    /// Reads the attributes of an event of kind `event_kind`: an unknown kind
    /// gives nothing; an applied transaction gives its status code, the gas
    /// it used, its hash in lowercase, its height, its batch results, which
    /// `decode_batch` makes of the `batch` attribute, and its info text.
    pub fn deserialize<F: Fn(&String) -> BatchResults>(
        event_kind: &EventKind,
        attributes: &Vec<(String, String)>,
        decode_batch: &F,
    ) -> (r: Option<TxAttributes>)
        requires
            *event_kind == EventKind::Applied ==> applied_attributes_complete(attributes@),
            forall|s: &String| decode_batch.requires((s,)),
        ensures
            attributes_deserialized(*event_kind, attributes@, *decode_batch, r),
    {
        match event_kind {
            EventKind::Unknown => None,
            EventKind::Applied => {
                proof {
                    lemma_last_key_index_bounds(attributes@, "code"@);
                    lemma_last_key_index_bounds(attributes@, "gas_used"@);
                    lemma_last_key_index_bounds(attributes@, "hash"@);
                    lemma_last_key_index_bounds(attributes@, "height"@);
                    lemma_last_key_index_bounds(attributes@, "batch"@);
                    lemma_last_key_index_bounds(attributes@, "info"@);
                }
                let code_at = find_last_key(attributes, "code").unwrap();
                let gas_at = find_last_key(attributes, "gas_used").unwrap();
                let hash_at = find_last_key(attributes, "hash").unwrap();
                let height_at = find_last_key(attributes, "height").unwrap();
                let batch_at = find_last_key(attributes, "batch").unwrap();
                let info_at = find_last_key(attributes, "info").unwrap();
                let code = TxEventStatusCode::from(attributes[code_at].1.as_str());
                let gas = parse_u64(attributes[gas_at].1.as_str()).unwrap();
                let hash = Id::Hash(to_lowercase(attributes[hash_at].1.as_str()));
                let height = parse_u64(attributes[height_at].1.as_str()).unwrap();
                let batch = decode_batch(&attributes[batch_at].1);
                let info = attributes[info_at].1.clone();
                Some(TxAttributes { code, gas, hash, height, batch, info })
            },
        }
    }
}

/// An event as a node reports it: its kind text and its attributes as
/// key/value texts, in the order given.
pub struct RawEvent {
    pub kind: String,
    pub attributes: Vec<(String, String)>,
}

/// An event of a block, read.
#[derive(Debug)]
pub struct Event {
    pub kind: EventKind,
    pub attributes: Option<TxAttributes>,
}

/// The results of a block: its height and the events emitted at its
/// beginning and at its end.
#[derive(Debug)]
pub struct BlockResult {
    pub height: u64,
    pub begin_events: Vec<Event>,
    pub end_events: Vec<Event>,
}

impl Default for BlockResult {
    fn default() -> (r: BlockResult)
        ensures
            r.height == 0,
            r.begin_events@.len() == 0,
            r.end_events@.len() == 0,
    {
        BlockResult { height: 0, begin_events: Vec::new(), end_events: Vec::new() }
    }
}

/// Whether a raw event can be read: if it reports an applied transaction, its
/// attributes are complete.
pub open spec fn raw_event_readable(e: RawEvent) -> bool {
    event_kind_of(e.kind@) == EventKind::Applied ==> applied_attributes_complete(e.attributes@)
}

/// Whether the value of `key` in `attrs` is present and, where `number`
/// says so, a decimal `u64`.
fn attribute_usable(attrs: &Vec<(String, String)>, key: &str, number: bool) -> (r: bool)
    ensures
        r == (last_key_index(attrs@, key@) >= 0 && (number ==> decimal_u64(
            attrs@[last_key_index(attrs@, key@)].1@,
        ) is Some)),
{
    proof {
        lemma_last_key_index_bounds(attrs@, key@);
    }
    match find_last_key(attrs, key) {
        Some(i) => !number || parse_u64(attrs[i].1.as_str()).is_some(),
        None => false,
    }
}

impl RawEvent {
    /// Whether this event can be read: an event that reports an applied
    /// transaction must give a code, the gas used and the height as decimal
    /// numbers, a hash, the batch results and an info text.
    pub fn is_readable(&self) -> (r: bool)
        ensures
            r == raw_event_readable(*self),
    {
        if EventKind::from(&self.kind) == EventKind::Unknown {
            return true;
        }
        attribute_usable(&self.attributes, "code", false)
            && attribute_usable(&self.attributes, "gas_used", true)
            && attribute_usable(&self.attributes, "hash", false)
            && attribute_usable(&self.attributes, "height", true)
            && attribute_usable(&self.attributes, "batch", false)
            && attribute_usable(&self.attributes, "info", false)
    }
}

/// Whether every event of an optional list can be read.
pub open spec fn raw_events_readable(events: Option<Vec<RawEvent>>) -> bool {
    events matches Some(v) ==> forall|i: int| 0 <= i < v@.len() ==> raw_event_readable(#[trigger] v@[i])
}

/// The events of an optional list; none where the list is absent.
pub open spec fn raw_events_or_empty(events: Option<Vec<RawEvent>>) -> Seq<RawEvent> {
    match events {
        Some(v) => v@,
        None => Seq::empty(),
    }
}

/// Whether the events `evs` are what reading the raw events `raws` gives,
/// one for one and in order.
pub open spec fn events_read<F: Fn(&String) -> BatchResults>(
    raws: Seq<RawEvent>,
    decode_batch: F,
    evs: Seq<Event>,
) -> bool {
    &&& evs.len() == raws.len()
    &&& forall|i: int|
        0 <= i < raws.len() ==> {
            &&& (#[trigger] evs[i]).kind == event_kind_of(raws[i].kind@)
            &&& attributes_deserialized(evs[i].kind, raws[i].attributes@, decode_batch, evs[i].attributes)
        }
}

/// The exit status that the first of `events` to carry the hash `h` reports;
/// `Rejected` where none does.
pub open spec fn wrapper_status(events: Seq<Event>, h: IdView) -> TransactionExitStatus
    decreases events.len(),
{
    if events.len() == 0 {
        TransactionExitStatus::Rejected
    } else if events[0].attributes is Some && events[0].attributes->0.hash@ == h {
        exit_status_of(events[0].attributes->0.code)
    } else {
        wrapper_status(events.skip(1), h)
    }
}

/// Whether the first of `events` to carry the hash `wrapper` records the
/// inner transaction `inner` as successful: `Applied` if so, `Rejected`
/// otherwise, and where no event carries the hash.
pub open spec fn inner_status(events: Seq<Event>, wrapper: IdView, inner: IdView) -> TransactionExitStatus
    decreases events.len(),
{
    if events.len() == 0 {
        TransactionExitStatus::Rejected
    } else if events[0].attributes is Some && events[0].attributes->0.hash@ == wrapper {
        let results = events[0].attributes->0.batch.results();
        if results.contains_key(inner) && results[inner] {
            TransactionExitStatus::Applied
        } else {
            TransactionExitStatus::Rejected
        }
    } else {
        inner_status(events.skip(1), wrapper, inner)
    }
}

/// Reads each raw event of an optional list, in order.
fn read_events<F: Fn(&String) -> BatchResults>(
    raws: Option<Vec<RawEvent>>,
    decode_batch: &F,
) -> (r: Vec<Event>)
    requires
        raw_events_readable(raws),
        forall|s: &String| decode_batch.requires((s,)),
    ensures
        events_read(raw_events_or_empty(raws), *decode_batch, r@),
{
    let raws = match raws {
        Some(v) => v,
        None => Vec::new(),
    };
    let mut r: Vec<Event> = Vec::new();
    let n = raws.len();
    let mut k: usize = 0;
    while k < n
        invariant
            n == raws.len(),
            k <= n,
            forall|i: int| 0 <= i < raws@.len() ==> raw_event_readable(#[trigger] raws@[i]),
            forall|s: &String| decode_batch.requires((s,)),
            r@.len() == k,
            forall|i: int|
                0 <= i < k ==> {
                    &&& (#[trigger] r@[i]).kind == event_kind_of(raws@[i].kind@)
                    &&& attributes_deserialized(r@[i].kind, raws@[i].attributes@, *decode_batch, r@[i].attributes)
                },
        decreases n - k,
    {
        let raw = &raws[k];
        assert(raw_event_readable(raws@[k as int]));
        let kind = EventKind::from(&raw.kind);
        let attributes = TxAttributes::deserialize(&kind, &raw.attributes, decode_batch);
        r.push(Event { kind, attributes });
        k = k + 1;
    }
    r
}

impl BlockResult {
    /// Reads the results of the block at `height` from the events that a
    /// node reports for its beginning and its end (an absent list holds no
    /// events), `decode_batch` reading the batch results of each applied
    /// transaction.
    pub fn from_events<F: Fn(&String) -> BatchResults>(
        height: u64,
        begin_block_events: Option<Vec<RawEvent>>,
        end_block_events: Option<Vec<RawEvent>>,
        decode_batch: &F,
    ) -> (r: BlockResult)
        requires
            raw_events_readable(begin_block_events),
            raw_events_readable(end_block_events),
            forall|s: &String| decode_batch.requires((s,)),
        ensures
            r.height == height,
            events_read(raw_events_or_empty(begin_block_events), *decode_batch, r.begin_events@),
            events_read(raw_events_or_empty(end_block_events), *decode_batch, r.end_events@),
    {
        let begin_events = read_events(begin_block_events, decode_batch);
        let end_events = read_events(end_block_events, decode_batch);
        BlockResult { height, begin_events, end_events }
    }

    /// Whether the wrapper transaction `tx_hash` was applied: the status code
    /// of the first end event that carries its hash decides; a transaction
    /// that no end event carries was rejected.
    pub fn is_wrapper_tx_applied(&self, tx_hash: &Id) -> (r: TransactionExitStatus)
        ensures
            r == wrapper_status(self.end_events@, tx_hash@),
    {
        let n = self.end_events.len();
        let mut i: usize = 0;
        assert(self.end_events@.skip(0) =~= self.end_events@);
        while i < n
            invariant
                n == self.end_events.len(),
                i <= n,
                wrapper_status(self.end_events@, tx_hash@) == wrapper_status(self.end_events@.skip(i as int), tx_hash@),
            decreases n - i,
        {
            let ghost rest = self.end_events@.skip(i as int);
            assert(rest.skip(1) =~= self.end_events@.skip(i + 1));
            assert(rest[0] == self.end_events@[i as int]);
            match &self.end_events[i].attributes {
                Some(attributes) => {
                    if attributes.hash == *tx_hash {
                        return TransactionExitStatus::from(attributes.code);
                    }
                },
                None => {},
            }
            i = i + 1;
        }
        TransactionExitStatus::Rejected
    }

    /// Whether the inner transaction `inner_hash` of the wrapper transaction
    /// `wrapper_hash` was accepted: the batch results of the first end event
    /// that carries the wrapper's hash decide; it was rejected where no end
    /// event carries that hash.
    pub fn is_inner_tx_accepted(&self, wrapper_hash: &Id, inner_hash: &Id) -> (r: TransactionExitStatus)
        ensures
            r == inner_status(self.end_events@, wrapper_hash@, inner_hash@),
    {
        let n = self.end_events.len();
        let mut i: usize = 0;
        assert(self.end_events@.skip(0) =~= self.end_events@);
        while i < n
            invariant
                n == self.end_events.len(),
                i <= n,
                inner_status(self.end_events@, wrapper_hash@, inner_hash@)
                    == inner_status(self.end_events@.skip(i as int), wrapper_hash@, inner_hash@),
            decreases n - i,
        {
            let ghost rest = self.end_events@.skip(i as int);
            assert(rest.skip(1) =~= self.end_events@.skip(i + 1));
            assert(rest[0] == self.end_events@[i as int]);
            match &self.end_events[i].attributes {
                Some(attributes) => {
                    if attributes.hash == *wrapper_hash {
                        if attributes.batch.is_successful(inner_hash) {
                            return TransactionExitStatus::Applied;
                        } else {
                            return TransactionExitStatus::Rejected;
                        }
                    }
                },
                None => {},
            }
            i = i + 1;
        }
        TransactionExitStatus::Rejected
    }
}

/// The position of the last outcome of `outcomes` for the inner transaction
/// `id`, or -1 where there is none.
pub open spec fn last_outcome_index(outcomes: Seq<InnerTxOutcome>, id: IdView) -> int
    decreases outcomes.len(),
{
    if outcomes.len() == 0 {
        -1
    } else if outcomes.last().id@ == id {
        outcomes.len() - 1
    } else {
        last_outcome_index(outcomes.drop_last(), id)
    }
}

/// The results of a batch read from the outcomes of its inner transactions
/// hold an inner transaction exactly when some outcome is about it, and then
/// it succeeded exactly when the last outcome about it reports that it ran
/// and was accepted; no outcome after that one is about it.
pub proof fn batch_success_is_last_outcome(outcomes: Seq<InnerTxOutcome>, id: IdView)
    ensures
        -1 <= last_outcome_index(outcomes, id) < outcomes.len(),
        outcome_results(outcomes).contains_key(id) <==> last_outcome_index(outcomes, id) >= 0,
        last_outcome_index(outcomes, id) >= 0 ==> outcomes[last_outcome_index(outcomes, id)].id@ == id
            && outcome_results(outcomes)[id] == outcome_accepted(outcomes[last_outcome_index(outcomes, id)]),
        forall|j: int| last_outcome_index(outcomes, id) < j < outcomes.len() ==> (#[trigger] outcomes[j]).id@ != id,
    decreases outcomes.len(),
{
    if outcomes.len() > 0 {
        let p = outcomes.drop_last();
        batch_success_is_last_outcome(p, id);
        if outcomes.last().id@ != id {
            assert forall|j: int| last_outcome_index(outcomes, id) < j < outcomes.len() implies (#[trigger] outcomes[j]).id@ != id by {
                if j < outcomes.len() - 1 {
                    assert(outcomes[j] == p[j]);
                } else {
                    assert(outcomes[j] == outcomes.last());
                }
            }
        }
    }
}

/// The position of the first of `events` that carries the hash `h`, or -1
/// where none does.
pub open spec fn first_hash_index(events: Seq<Event>, h: IdView) -> int
    decreases events.len(),
{
    if events.len() == 0 {
        -1
    } else if events[0].attributes is Some && events[0].attributes->0.hash@ == h {
        0
    } else {
        let i = first_hash_index(events.skip(1), h);
        if i < 0 { -1 } else { i + 1 }
    }
}

/// A wrapper transaction is reported applied exactly when some end event
/// carries its hash and the first such event reports a successful code; no
/// earlier event carries the hash. A hash that no end event carries is
/// reported rejected. Whether an inner transaction is reported accepted
/// depends on the batch results of that same first event.
pub proof fn status_is_decided_by_first_carrier(events: Seq<Event>, wrapper: IdView, inner: IdView)
    ensures
        -1 <= first_hash_index(events, wrapper) < events.len(),
        first_hash_index(events, wrapper) == -1 ==> wrapper_status(events, wrapper) == TransactionExitStatus::Rejected
            && inner_status(events, wrapper, inner) == TransactionExitStatus::Rejected,
        first_hash_index(events, wrapper) >= 0 ==> ({
            let e = events[first_hash_index(events, wrapper)];
            &&& e.attributes is Some
            &&& e.attributes->0.hash@ == wrapper
            &&& wrapper_status(events, wrapper) == exit_status_of(e.attributes->0.code)
            &&& (inner_status(events, wrapper, inner) == TransactionExitStatus::Applied
                <==> (e.attributes->0.batch.results().contains_key(inner) && e.attributes->0.batch.results()[inner]))
            &&& forall|j: int| 0 <= j < first_hash_index(events, wrapper) ==>
                !((#[trigger] events[j]).attributes is Some && events[j].attributes->0.hash@ == wrapper)
        }),
    decreases events.len(),
{
    if events.len() > 0 {
        let rest = events.skip(1);
        status_is_decided_by_first_carrier(rest, wrapper, inner);
        if !(events[0].attributes is Some && events[0].attributes->0.hash@ == wrapper) {
            let i = first_hash_index(rest, wrapper);
            if i >= 0 {
                assert(events[i + 1] == rest[i]);
                assert forall|j: int| 0 <= j < i + 1 implies
                    !((#[trigger] events[j]).attributes is Some && events[j].attributes->0.hash@ == wrapper) by {
                    if j > 0 {
                        assert(events[j] == rest[j - 1]);
                    }
                }
            }
        }
    }
}

/// Reading events keeps their order and their number, and an event carries
/// transaction attributes exactly when its kind text is `tx/applied`.
pub proof fn only_applied_events_carry_attributes<F: Fn(&String) -> BatchResults>(
    raws: Seq<RawEvent>,
    decode_batch: F,
    evs: Seq<Event>,
    i: int,
)
    requires
        events_read(raws, decode_batch, evs),
        0 <= i < raws.len(),
    ensures
        evs.len() == raws.len(),
        evs[i].attributes is Some <==> raws[i].kind@ == "tx/applied"@,
{
    assert(evs[i].kind == event_kind_of(raws[i].kind@));
}

/// A status code text reads as success exactly when it is the single
/// character `0` or `1`; every other text, the empty one included, reads as
/// failure.
pub proof fn success_codes_are_zero_and_one(s: Seq<char>)
    ensures
        status_code_of(s) == TxEventStatusCode::Success <==> (s.len() == 1 && (s[0] == '0' || s[0] == '1')),
        status_code_of(s) == TxEventStatusCode::Fail <==> !(s.len() == 1 && (s[0] == '0' || s[0] == '1')),
{
    reveal_strlit("0");
    reveal_strlit("1");
    if s.len() == 1 && s[0] == '0' {
        assert(s =~= "0"@);
    }
    if s.len() == 1 && s[0] == '1' {
        assert(s =~= "1"@);
    }
}

/// An event kind text reads as an applied transaction exactly when it is
/// `tx/applied`, character for character.
pub proof fn applied_kind_is_tx_applied(s: Seq<char>)
    ensures
        event_kind_of(s) == EventKind::Applied <==> s =~= seq!['t', 'x', '/', 'a', 'p', 'p', 'l', 'i', 'e', 'd'],
{
    reveal_strlit("tx/applied");
    assert("tx/applied"@ =~= seq!['t', 'x', '/', 'a', 'p', 'p', 'l', 'i', 'e', 'd']);
}

/// A transaction counts as applied exactly when its status code is a
/// success, and the two statuses display as `Applied` and `Rejected`.
pub proof fn applied_exactly_on_success(code: TxEventStatusCode)
    ensures
        exit_status_of(code) == TransactionExitStatus::Applied <==> code == TxEventStatusCode::Success,
        exit_status_of(code) == TransactionExitStatus::Rejected <==> code == TxEventStatusCode::Fail,
        exit_status_text(TransactionExitStatus::Applied) =~= seq!['A', 'p', 'p', 'l', 'i', 'e', 'd'],
        exit_status_text(TransactionExitStatus::Rejected) =~= seq!['R', 'e', 'j', 'e', 'c', 't', 'e', 'd'],
{
    reveal_strlit("Applied");
    reveal_strlit("Rejected");
}

} // verus!
