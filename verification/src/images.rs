//! Image assets: which images a character needs, and the bookkeeping of
//! image downloads (what is ready, pending or failed, and progress counts).

use vstd::prelude::*;

use crate::game::{CharacterState, CharacterView};
use crate::named::NamedMap;
use crate::text::{endpoint, same_text, trim_slashes};

verus! {

/// The request for the item image `code`, when `code` is not empty.
pub open spec fn item_request(code: Seq<char>) -> Seq<(Seq<char>, Seq<char>)> {
    if code.len() > 0 {
        seq![("items"@, code)]
    } else {
        Seq::empty()
    }
}

/// The image category of a task type ("monsters", "items" or
/// "resources"), or empty when the task type has no image category.
pub open spec fn task_category(task_type: Seq<char>) -> Seq<char> {
    if task_type == "monsters"@ {
        "monsters"@
    } else if task_type == "items"@ {
        "items"@
    } else if task_type == "resources"@ {
        "resources"@
    } else {
        Seq::empty()
    }
}

/// The equipment slots of a character in display order: weapon, shield,
/// helmet, body, legs, boots, rings, amulet, rune, artifacts, bag and
/// utilities.
pub open spec fn equipment_of(c: CharacterView) -> Seq<Seq<char>> {
    seq![
        c.weapon_slot,
        c.shield_slot,
        c.helmet_slot,
        c.body_armor_slot,
        c.leg_armor_slot,
        c.boots_slot,
        c.ring1_slot,
        c.ring2_slot,
        c.amulet_slot,
        c.rune_slot,
        c.artifact1_slot,
        c.artifact2_slot,
        c.artifact3_slot,
        c.bag_slot,
        c.utility1_slot,
        c.utility2_slot,
    ]
}

/// The item image requests for a list of equipment slots, skipping empty
/// slots.
pub open spec fn item_requests(slots: Seq<Seq<char>>) -> Seq<(Seq<char>, Seq<char>)>
    decreases slots.len(),
{
    if slots.len() == 0 {
        Seq::empty()
    } else {
        item_requests(slots.drop_last()) + item_request(slots.last())
    }
}

/// The images a character's card needs, as `(category, code)` in request
/// order: the skin portrait, the equipped items, and the task target when
/// its category is known.
pub open spec fn image_requests_of(c: CharacterView) -> Seq<(Seq<char>, Seq<char>)> {
    let skin = if c.skin.len() > 0 {
        seq![("characters"@, c.skin)]
    } else {
        Seq::empty()
    };
    let task = if c.task.len() > 0 && c.task_type.len() > 0 && task_category(c.task_type).len()
        > 0 {
        seq![(task_category(c.task_type), c.task)]
    } else {
        Seq::empty()
    };
    skin + item_requests(equipment_of(c)) + task
}

/// The `(category, code)` pairs of a list of requests.
pub open spec fn requests_view(v: Seq<(String, String)>) -> Seq<(Seq<char>, Seq<char>)> {
    v.map_values(|r: (String, String)| (r.0@, r.1@))
}

fn push_item(v: &mut Vec<(String, String)>, code: &String)
    ensures
        requests_view(final(v)@) == requests_view(old(v)@) + item_request(code@),
{
    if !code.as_str().is_empty() {
        v.push((String::from_str("items"), code.clone()));
        assert(requests_view(v@) =~= requests_view(old(v)@) + item_request(code@));
    } else {
        assert(requests_view(v@) =~= requests_view(old(v)@) + item_request(code@));
    }
}

fn task_category_of(task_type: &str) -> (r: &'static str)
    ensures
        r@ == task_category(task_type@),
{
    if same_text(task_type, "monsters") {
        "monsters"
    } else if same_text(task_type, "items") {
        "items"
    } else if same_text(task_type, "resources") {
        "resources"
    } else {
        proof {
            reveal_strlit("");
        }
        ""
    }
}

fn equipment_slot(c: &CharacterState, i: usize) -> (r: &String)
    requires
        i < 16,
    ensures
        r@ == equipment_of(c@)[i as int],
{
    match i {
        0 => &c.weapon_slot,
        1 => &c.shield_slot,
        2 => &c.helmet_slot,
        3 => &c.body_armor_slot,
        4 => &c.leg_armor_slot,
        5 => &c.boots_slot,
        6 => &c.ring1_slot,
        7 => &c.ring2_slot,
        8 => &c.amulet_slot,
        9 => &c.rune_slot,
        10 => &c.artifact1_slot,
        11 => &c.artifact2_slot,
        12 => &c.artifact3_slot,
        13 => &c.bag_slot,
        14 => &c.utility1_slot,
        _ => &c.utility2_slot,
    }
}

/// The images a character's card needs, as `(category, code)` pairs in
/// request order.
pub fn character_image_requests(c: &CharacterState) -> (r: Vec<(String, String)>)
    ensures
        requests_view(r@) == image_requests_of(c@),
{
    let mut v: Vec<(String, String)> = Vec::new();
    if !c.skin.as_str().is_empty() {
        v.push((String::from_str("characters"), c.skin.clone()));
    }
    let ghost s0 = requests_view(v@);
    let ghost slots = equipment_of(c@);
    assert(s0 =~= if c.skin@.len() > 0 {
        seq![("characters"@, c.skin@)]
    } else {
        Seq::empty()
    });
    assert(slots.take(0) =~= Seq::<Seq<char>>::empty());
    assert(requests_view(v@) =~= s0 + item_requests(slots.take(0)));
    let mut i: usize = 0;
    while i < 16
        invariant
            i <= 16,
            slots == equipment_of(c@),
            slots.len() == 16,
            requests_view(v@) == s0 + item_requests(slots.take(i as int)),
        decreases 16 - i,
    {
        let code = equipment_slot(c, i);
        push_item(&mut v, code);
        assert(slots.take(i + 1).drop_last() =~= slots.take(i as int));
        assert(slots.take(i + 1).last() == slots[i as int]);
        assert(requests_view(v@) =~= s0 + item_requests(slots.take(i + 1)));
        i = i + 1;
    }
    assert(slots.take(16) =~= slots);
    let ghost s1 = requests_view(v@);
    if !c.task.as_str().is_empty() && !c.task_type.as_str().is_empty() {
        let category = task_category_of(c.task_type.as_str());
        if !category.is_empty() {
            v.push((String::from_str(category), c.task.clone()));
            assert(requests_view(v@) =~= s1.push((task_category(c.task_type@), c.task@)));
        }
    }
    assert(requests_view(v@) =~= image_requests_of(c@));
    v
}

/// How long a transiently failed download waits before a retry (ms).
pub const TRANSIENT_RETRY_MS: u64 = 30000;

/// What is known of one image asset.
#[derive(Clone, Copy, Debug, PartialEq, Eq, Structural)]
pub struct AssetFlags {
    /// The decoded image is in memory.
    pub ready: bool,
    /// A download is in flight.
    pub pending: bool,
    /// The server answered 404: never retried.
    pub missing: bool,
    /// The time (ms) of the last transient failure, if one is waiting.
    pub retry_at: Option<u64>,
}

/// Nothing known of an asset.
pub open spec fn unknown() -> AssetFlags {
    AssetFlags { ready: false, pending: false, missing: false, retry_at: None }
}

/// The flags of `key` (nothing known when absent).
pub open spec fn flags_of(m: Map<Seq<char>, AssetFlags>, key: Seq<char>) -> AssetFlags {
    if m.contains_key(key) {
        m[key]
    } else {
        unknown()
    }
}

/// The assets with a download in flight.
pub open spec fn pending_keys(m: Map<Seq<char>, AssetFlags>) -> Set<Seq<char>> {
    m.dom().filter(|k: Seq<char>| m[k].pending)
}

/// The answer to a request for an image.
#[derive(Clone, Copy, Debug, PartialEq, Eq, Structural)]
pub enum Request {
    /// An empty code names no image: nothing is done.
    NoCode,
    /// The image is already in memory: nothing is done.
    Ready,
    /// The asset does not exist (404 before): nothing is done.
    Refused,
    /// A transient failure is younger than `TRANSIENT_RETRY_MS`: wait.
    CoolingDown,
    /// A download is already in flight.
    AlreadyPending,
    /// A download was queued: the caller starts it.
    Queued,
}

/// The outcome of a download.
#[derive(Clone, Copy, Debug, PartialEq, Eq, Structural)]
pub enum Download {
    /// Downloaded, written to disk and decoded.
    Done,
    /// The server answered 404.
    NotFound,
    /// Any other failure (network, timeout, server error, decoding).
    Failed,
}

/// The flags of an asset whose download ended with `outcome` at `now_ms`.
pub open spec fn completed_flags(f: AssetFlags, outcome: Download, now_ms: u64) -> AssetFlags {
    match outcome {
        Download::Done => AssetFlags { pending: false, ready: true, ..f },
        Download::NotFound => AssetFlags { pending: false, missing: true, ..f },
        Download::Failed => AssetFlags { pending: false, retry_at: Some(now_ms), ..f },
    }
}

/// Whether an asset no longer needs waiting for.
pub open spec fn settled(f: AssetFlags) -> bool {
    f.ready || f.missing || f.retry_at is Some
}

/// A finished download, whatever its outcome, leaves its asset settled and
/// no longer in flight; a 404 is final: a missing asset is refused by every
/// later request.
pub proof fn completion_settles_law(f: AssetFlags, outcome: Download, now_ms: u64)
    ensures
        settled(completed_flags(f, outcome, now_ms)),
        !completed_flags(f, outcome, now_ms).pending,
        outcome == Download::NotFound ==> completed_flags(f, outcome, now_ms).missing,
{
}

/// Whether a transient failure of `f` is younger than `TRANSIENT_RETRY_MS`
/// at `now_ms`.
pub open spec fn cooling(f: AssetFlags, now_ms: u64) -> bool {
    match f.retry_at {
        Some(t) => now_ms < t || now_ms - t < TRANSIENT_RETRY_MS,
        None => false,
    }
}

/// A request for an asset with flags `f` at `now_ms`: the answer and the
/// asset's flags afterwards. An asset in memory is answered at once, a
/// missing asset is refused and a cooling one waits, all unchanged;
/// otherwise an expired failure is cleared, and the asset is either already
/// in flight or queued (marked pending).
pub open spec fn request_step(f: AssetFlags, now_ms: u64) -> (Request, AssetFlags) {
    let cleared = AssetFlags { retry_at: None, ..f };
    if f.ready {
        (Request::Ready, f)
    } else if f.missing {
        (Request::Refused, f)
    } else if cooling(f, now_ms) {
        (Request::CoolingDown, f)
    } else if f.pending {
        (Request::AlreadyPending, cleared)
    } else {
        (Request::Queued, AssetFlags { pending: true, ..cleared })
    }
}

/// A 404 is final: the asset is marked missing, a missing asset is
/// refused, unchanged, by every later request until its image is loaded
/// from disk, and it stays missing through any later completion or disk
/// hit.
pub proof fn missing_is_final_law(f: AssetFlags, now_ms: u64, later_ms: u64, outcome: Download)
    ensures
        completed_flags(f, Download::NotFound, now_ms).missing,
        f.missing && !f.ready ==> request_step(f, later_ms) == (Request::Refused, f),
        f.missing ==> completed_flags(f, outcome, later_ms).missing,
        f.missing ==> (AssetFlags { ready: true, ..f }).missing,
{
}

/// Downloads are never duplicated: once a request is queued, every later
/// request finds the download in flight until it completes.
pub proof fn no_duplicate_download_law(f: AssetFlags, now_ms: u64, later_ms: u64)
    ensures
        request_step(f, now_ms).0 == Request::Queued ==> request_step(request_step(f, now_ms).1, later_ms)
            == (Request::AlreadyPending, request_step(f, now_ms).1),
{
}

/// A transient failure waits: requests within `TRANSIENT_RETRY_MS` of the
/// failure cool down, and the first request after that queues a new
/// download (unless the asset is in memory or missing).
pub proof fn transient_retry_law(f: AssetFlags, failed_ms: u64, later_ms: u64)
    ensures
        ({
            let g = completed_flags(f, Download::Failed, failed_ms);
            &&& (!f.ready && !f.missing && failed_ms <= later_ms && later_ms - failed_ms < TRANSIENT_RETRY_MS)
                ==> request_step(g, later_ms).0 == Request::CoolingDown
            &&& (!f.ready && !f.missing && later_ms >= failed_ms && later_ms - failed_ms >= TRANSIENT_RETRY_MS)
                ==> request_step(g, later_ms) == (Request::Queued, AssetFlags {
                pending: true,
                retry_at: None,
                ..g
            })
        }),
{
}

/// Bookkeeping of image downloads: what each asset's state is, and how
/// many downloads were queued, completed (successes and 404s) and failed
/// transiently.
pub struct ImageBook {
    assets: NamedMap<AssetFlags>,
    queued: usize,
    completed: usize,
    failed: usize,
}

/// The cache key of the image `code` of `category`: `category/code`.
pub open spec fn key_of(category: Seq<char>, code: Seq<char>) -> Seq<char> {
    category + "/"@ + code
}

/// What memory holds of a requested image, before the disk is looked at.
#[derive(Clone, Copy, Debug, PartialEq, Eq, Structural)]
pub enum Lookup {
    /// An empty code names no image.
    NoCode,
    /// The image is in memory.
    Ready,
    /// The image is not in memory.
    Absent,
}

impl View for ImageBook {
    type V = Map<Seq<char>, AssetFlags>;

    closed spec fn view(&self) -> Map<Seq<char>, AssetFlags> {
        self.assets@
    }
}

proof fn lemma_pending_update(m: Map<Seq<char>, AssetFlags>, k: Seq<char>, v: AssetFlags)
    requires
        m.dom().finite(),
    ensures
        m.insert(k, v).dom().finite(),
        pending_keys(m.insert(k, v)) == if v.pending {
            pending_keys(m).insert(k)
        } else {
            pending_keys(m).remove(k)
        },
        pending_keys(m).finite(),
        pending_keys(m.insert(k, v)).finite(),
{
    let m1 = m.insert(k, v);
    m.dom().lemma_len_filter(|q: Seq<char>| m[q].pending);
    assert(m1.dom() =~= m.dom().insert(k));
    m1.dom().lemma_len_filter(|q: Seq<char>| m1[q].pending);
    if v.pending {
        assert(pending_keys(m1) =~= pending_keys(m).insert(k));
    } else {
        assert(pending_keys(m1) =~= pending_keys(m).remove(k));
    }
}

impl ImageBook {
    /// The book is consistent: finitely many assets, and every queued
    /// download either completed, failed transiently or still in flight.
    pub closed spec fn wf(self) -> bool {
        &&& self.assets@.dom().finite()
        &&& self.queued == self.completed + self.failed + pending_keys(self.assets@).len()
    }

    /// Downloads queued so far.
    pub closed spec fn queued_total(self) -> usize {
        self.queued
    }

    /// Downloads completed so far: successes and 404s.
    pub closed spec fn completed_total(self) -> usize {
        self.completed
    }

    /// Downloads that failed transiently so far.
    pub closed spec fn failed_total(self) -> usize {
        self.failed
    }

    /// In a consistent book every queued download is either completed
    /// (a success or a 404), failed transiently or still in flight, so no
    /// more are completed than queued.
    pub proof fn progress_law(self)
        requires
            self.wf(),
        ensures
            self@.dom().finite(),
            self.queued_total() == self.completed_total() + self.failed_total() + pending_keys(self@).len(),
            self.completed_total() <= self.queued_total(),
    {
    }

    /// Nothing known, nothing queued.
    pub fn new() -> (r: ImageBook)
        ensures
            r.wf(),
            r@ == Map::<Seq<char>, AssetFlags>::empty(),
            r.queued_total() == 0,
            r.completed_total() == 0,
            r.failed_total() == 0,
    {
        let r = ImageBook { assets: NamedMap::new(), queued: 0, completed: 0, failed: 0 };
        assert(pending_keys(r.assets@) =~= Set::<Seq<char>>::empty());
        r
    }

    /// What is known of `key`.
    pub fn flags(&self, key: &str) -> (r: AssetFlags)
        ensures
            r == flags_of(self@, key@),
    {
        match self.assets.get(key) {
            Some(f) => *f,
            None => AssetFlags { ready: false, pending: false, missing: false, retry_at: None },
        }
    }

    /// The progress as `(completed, queued)`.
    pub fn stats(&self) -> (r: (usize, usize))
        ensures
            r == (self.completed_total(), self.queued_total()),
    {
        (self.completed, self.queued)
    }

    /// What memory holds of the image `code` of `category`: nothing to
    /// look for when the code is empty, else whether it is in memory.
    pub fn lookup(&self, category: &str, code: &str) -> (r: Lookup)
        ensures
            code@.len() == 0 ==> r == Lookup::NoCode,
            code@.len() > 0 && flags_of(self@, key_of(category@, code@)).ready ==> r == Lookup::Ready,
            code@.len() > 0 && !flags_of(self@, key_of(category@, code@)).ready ==> r == Lookup::Absent,
    {
        if code.is_empty() {
            Lookup::NoCode
        } else if self.flags(image_key(category, code).as_str()).ready {
            Lookup::Ready
        } else {
            Lookup::Absent
        }
    }

    /// Whether the image `code` of `category` is in memory (never for an
    /// empty code).
    pub fn is_ready(&self, category: &str, code: &str) -> (r: bool)
        ensures
            r == (code@.len() > 0 && flags_of(self@, key_of(category@, code@)).ready),
    {
        if code.is_empty() {
            false
        } else {
            self.flags(image_key(category, code).as_str()).ready
        }
    }

    /// Whether the image `code` of `category` no longer needs waiting for:
    /// an empty code, or an image in memory, missing, or waiting for a
    /// retry.
    pub fn is_settled(&self, category: &str, code: &str) -> (r: bool)
        ensures
            r == (code@.len() == 0 || settled(flags_of(self@, key_of(category@, code@)))),
    {
        if code.is_empty() {
            true
        } else {
            let f = self.flags(image_key(category, code).as_str());
            f.ready || f.missing || f.retry_at.is_some()
        }
    }

    /// Whether every image `codes[i]` of `category` no longer needs waiting
    /// for.
    pub fn all_settled(&self, category: &str, codes: &Vec<String>) -> (r: bool)
        ensures
            r == forall|i: int|
                0 <= i < codes@.len() ==> (#[trigger] codes@[i])@.len() == 0 || settled(
                    flags_of(self@, key_of(category@, codes@[i]@)),
                ),
    {
        let mut i: usize = 0;
        while i < codes.len()
            invariant
                i <= codes@.len(),
                forall|k: int|
                    0 <= k < i ==> (#[trigger] codes@[k])@.len() == 0 || settled(
                        flags_of(self@, key_of(category@, codes@[k]@)),
                    ),
            decreases codes@.len() - i,
        {
            if !self.is_settled(category, codes[i].as_str()) {
                return false;
            }
            i = i + 1;
        }
        true
    }

    /// Records that the image of `key` was loaded from disk into memory.
    pub fn mark_ready(&mut self, key: &str)
        requires
            old(self).wf(),
        ensures
            final(self).wf(),
            final(self)@ == old(self)@.insert(key@, AssetFlags { ready: true, ..flags_of(old(self)@, key@) }),
            final(self).queued_total() == old(self).queued_total(),
            final(self).completed_total() == old(self).completed_total(),
            final(self).failed_total() == old(self).failed_total(),
    {
        let f = self.flags(key);
        let g = AssetFlags { ready: true, ..f };
        proof {
            self.assets.lemma_finite();
            lemma_pending_update(self@, key@, g);
            if f.pending {
                assert(pending_keys(self@).contains(key@));
            } else {
                assert(!pending_keys(self@).contains(key@));
            }
        }
        self.assets.insert(key, g);
    }

    /// Handles a request for the image `code` of `category` that is not on
    /// disk: nothing for an empty code or an image in memory; refused when
    /// it is missing, cooling down while a transient failure is younger than
    /// `TRANSIENT_RETRY_MS` (an older one is cleared), already pending while
    /// a download is in flight, and else queued (marked pending and
    /// counted).
    pub fn request(&mut self, category: &str, code: &str, now_ms: u64) -> (r: Request)
        requires
            old(self).wf(),
            old(self).queued_total() < usize::MAX,
        ensures
            final(self).wf(),
            code@.len() == 0 ==> r == Request::NoCode && final(self)@ == old(self)@
                && final(self).queued_total() == old(self).queued_total(),
            code@.len() > 0 ==> ({
                let key = key_of(category@, code@);
                let f = flags_of(old(self)@, key);
                let step = request_step(f, now_ms);
                &&& r == step.0
                &&& final(self)@ == (if step.1 == f {
                    old(self)@
                } else {
                    old(self)@.insert(key, step.1)
                })
                &&& flags_of(final(self)@, key) == step.1
                &&& final(self).queued_total() == old(self).queued_total() + (if r == Request::Queued {
                    1int
                } else {
                    0int
                })
            }),
            final(self).completed_total() == old(self).completed_total(),
            final(self).failed_total() == old(self).failed_total(),
    {
        if code.is_empty() {
            return Request::NoCode;
        }
        let k = image_key(category, code);
        let key = k.as_str();
        let f = self.flags(key);
        if f.ready {
            return Request::Ready;
        }
        if f.missing {
            return Request::Refused;
        }
        let mut g = f;
        match f.retry_at {
            Some(t) => {
                if now_ms < t || now_ms - t < TRANSIENT_RETRY_MS {
                    return Request::CoolingDown;
                }
                g = AssetFlags { retry_at: None, ..f };
                proof {
                    self.assets.lemma_finite();
                    lemma_pending_update(self@, key@, g);
                    if f.pending {
                        assert(pending_keys(self@).contains(key@));
                    } else {
                        assert(!pending_keys(self@).contains(key@));
                    }
                }
                self.assets.insert(key, g);
            },
            None => {},
        }
        if g.pending {
            return Request::AlreadyPending;
        }
        let h = AssetFlags { pending: true, ..g };
        proof {
            self.assets.lemma_finite();
            lemma_pending_update(self@, key@, h);
            assert(flags_of(self@, key@) == g);
            assert(!pending_keys(self@).contains(key@));
        }
        self.assets.insert(key, h);
        self.queued = self.queued + 1;
        assert(self@ =~= old(self)@.insert(key@, h));
        Request::Queued
    }

    /// Records the outcome of the download of `key`, which must be in
    /// flight: it is no longer pending; a success puts it in memory and a
    /// 404 marks it missing, both counted complete; any other failure marks
    /// a retry from `now_ms` and is counted as a transient failure.
    pub fn complete(&mut self, key: &str, outcome: Download, now_ms: u64)
        requires
            old(self).wf(),
            flags_of(old(self)@, key@).pending,
        ensures
            final(self).wf(),
            final(self)@ == old(self)@.insert(
                key@,
                completed_flags(flags_of(old(self)@, key@), outcome, now_ms),
            ),
            outcome != Download::Failed ==> final(self).completed_total() == old(self).completed_total() + 1
                && final(self).failed_total() == old(self).failed_total(),
            outcome == Download::Failed ==> final(self).completed_total() == old(self).completed_total()
                && final(self).failed_total() == old(self).failed_total() + 1,
            final(self).queued_total() == old(self).queued_total(),
    {
        let f = self.flags(key);
        let g = match outcome {
            Download::Done => AssetFlags { pending: false, ready: true, ..f },
            Download::NotFound => AssetFlags { pending: false, missing: true, ..f },
            Download::Failed => AssetFlags { pending: false, retry_at: Some(now_ms), ..f },
        };
        proof {
            self.assets.lemma_finite();
            lemma_pending_update(self@, key@, g);
            assert(pending_keys(self@).contains(key@));
            assert(pending_keys(self@).len() >= 1) by {
                vstd::set::axiom_set_contains_len(pending_keys(self@), key@);
            }
        }
        self.assets.insert(key, g);
        match outcome {
            Download::Failed => {
                self.failed = self.failed + 1;
            },
            _ => {
                self.completed = self.completed + 1;
            },
        }
    }
}

/// The footer message of an image loaded from disk.
pub fn disk_hit_message(key: &str) -> (r: String)
    ensures
        r@ == key@ + " loaded from disk"@,
{
    let mut m = String::from_str(key);
    m.append(" loaded from disk");
    m
}

/// The footer message of an image download starting.
pub fn downloading_message(key: &str) -> (r: String)
    ensures
        r@ == key@ + " downloading…"@,
{
    let mut m = String::from_str(key);
    m.append(" downloading…");
    m
}

/// The footer message of a downloaded image of `width` × `height` pixels:
/// its size at four bytes per pixel in KB (rounded down) and dimensions.
pub fn cached_message(key: &str, width: u32, height: u32) -> (r: String)
    requires
        width * height * 4 <= u32::MAX,
    ensures
        r@ == key@ + " cached ("@ + crate::text::decimal((width * height * 4 / 1024) as nat) + "KB, "@
            + crate::text::decimal(width as nat) + "×"@ + crate::text::decimal(height as nat)
            + ")"@,
{
    let size_kb = width * height * 4 / 1024;
    let mut m = String::from_str(key);
    m.append(" cached (");
    crate::text::push_decimal(&mut m, size_kb as u64);
    m.append("KB, ");
    crate::text::push_decimal(&mut m, width as u64);
    m.append("×");
    crate::text::push_decimal(&mut m, height as u64);
    m.append(")");
    m
}

/// The footer message of a failed download: `not found (404)` for a
/// missing image, else the retry delay and the error text.
pub fn failure_message(key: &str, not_found: bool, error: &str) -> (r: String)
    ensures
        not_found ==> r@ == key@ + " not found (404)"@,
        !not_found ==> r@ == key@ + " failed (retry in 30s): "@ + error@,
{
    let mut m = String::from_str(key);
    if not_found {
        m.append(" not found (404)");
    } else {
        m.append(" failed (retry in 30s): ");
        m.append(error);
    }
    m
}

/// The cache key of an image, `category/code`.
pub fn image_key(category: &str, code: &str) -> (r: String)
    ensures
        r@ == key_of(category@, code@),
{
    let mut k = String::from_str(category);
    k.append("/");
    k.append(code);
    k
}

/// The download address of an image: the base without trailing slashes,
/// then `/category/code.png`.
pub fn image_url(base: &str, category: &str, code: &str) -> (r: String)
    ensures
        r@ == trim_slashes(base@) + "/"@ + category@ + "/"@ + code@ + ".png"@,
{
    let mut path = String::from_str("/");
    path.append(category);
    path.append("/");
    path.append(code);
    path.append(".png");
    let r = endpoint(base, path.as_str());
    assert(r@ =~= trim_slashes(base@) + "/"@ + category@ + "/"@ + code@ + ".png"@);
    r
}

/// The image base address of a synchronisation server: its address
/// without trailing slashes, then `/images`.
pub fn sync_image_base(url: &str) -> (r: String)
    ensures
        r@ == trim_slashes(url@) + "/images"@,
{
    endpoint(url, "/images")
}

} // verus!
