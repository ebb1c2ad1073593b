use vstd::prelude::*;
use vstd::string::StringSliceAdditionalSpecFns;
use vstd::utf8::{decode_utf8, encode_utf8, is_char_boundary};
use crate::text::{push_char, push_str, push_decimal, decimal, chars_of, string_is_empty};

verus! {

/// A remote machine as the dashboard lists it.
#[derive(Debug, Clone)]
pub struct SavedMachine {
    pub id: String,
    pub name: String,
    pub is_online: bool,
    pub last_connected: u64,
}

/// The persisted settings of the desktop application.
#[derive(Debug, Clone)]
pub struct AppConfig {
    pub device_id: String,
    pub signal_server: String,
    pub stun_server: String,
}

impl Default for AppConfig {
    /// No device id yet; the public signal server and Google's STUN server.
    fn default() -> (c: Self)
        ensures
            c.device_id@ == Seq::<char>::empty(),
            c.signal_server@ == "ws://lumina.a4ivi4.dev/ws"@,
            c.stun_server@ == "stun.l.google.com:19302"@,
    {
        AppConfig {
            device_id: String::new(),
            signal_server: "ws://lumina.a4ivi4.dev/ws".to_owned(),
            stun_server: "stun.l.google.com:19302".to_owned(),
        }
    }
}

/// `rand::thread_rng().gen_range(lo..hi)`: a uniformly random number in `lo..hi`.
#[verifier::external_body]
fn random_below(lo: u32, hi: u32) -> (r: u32)
    requires
        lo < hi,
    ensures
        lo <= r < hi,
{
    rand::Rng::gen_range(&mut rand::thread_rng(), lo..hi)
}

/// The device id `"LMN-<r1>-<r2>"`.
pub open spec fn device_id_text(r1: u32, r2: u32) -> Seq<char> {
    "LMN-"@ + decimal(r1 as nat) + "-"@ + decimal(r2 as nat)
}

/// Writes the device id for the two random parts `r1` and `r2`.
pub fn format_device_id(r1: u32, r2: u32) -> (id: String)
    ensures
        id@ == device_id_text(r1, r2),
{
    let mut id = String::new();
    push_str(&mut id, "LMN-");
    push_decimal(&mut id, r1);
    push_str(&mut id, "-");
    push_decimal(&mut id, r2);
    id
}

/// A fresh device id: two random four-digit parts from `1000..9999`.
pub fn new_device_id() -> (id: String)
    ensures
        exists|r1: u32, r2: u32| 1000 <= r1 < 9999 && 1000 <= r2 < 9999 && id@ == device_id_text(r1, r2),
{
    let r1 = random_below(1000, 9999);
    let r2 = random_below(1000, 9999);
    format_device_id(r1, r2)
}

/// The 32 characters of a session PIN: digits and capitals without 0, 1, I and O.
pub open spec fn pin_alphabet() -> Seq<char> {
    seq![
        '2', '3', '4', '5', '6', '7', '8', '9', 'A', 'B', 'C', 'D', 'E', 'F', 'G', 'H',
        'J', 'K', 'L', 'M', 'N', 'P', 'Q', 'R', 'S', 'T', 'U', 'V', 'W', 'X', 'Y', 'Z',
    ]
}

/// The PIN for 12 alphabet positions: groups of four separated by dashes.
pub open spec fn pin_text(idx: Seq<u32>) -> Seq<char> {
    Seq::new(14, |k: int|
        if k == 4 || k == 9 {
            '-'
        } else {
            pin_alphabet()[idx[if k < 4 { k } else if k < 9 { k - 1 } else { k - 2 }] as int]
        })
}

/// Writes the session PIN for the alphabet positions `idx`.
pub fn session_pin_from_indices(idx: &[u32; 12]) -> (pin: String)
    requires
        forall|i: int| 0 <= i < 12 ==> #[trigger] idx@[i] < 32,
    ensures
        pin@ == pin_text(idx@),
{
    let alphabet: [char; 32] = [
        '2', '3', '4', '5', '6', '7', '8', '9', 'A', 'B', 'C', 'D', 'E', 'F', 'G', 'H',
        'J', 'K', 'L', 'M', 'N', 'P', 'Q', 'R', 'S', 'T', 'U', 'V', 'W', 'X', 'Y', 'Z',
    ];
    assert(alphabet@ =~= pin_alphabet());
    let mut pin = String::new();
    let mut i: usize = 0;
    while i < 12
        invariant
            0 <= i <= 12,
            alphabet@ == pin_alphabet(),
            forall|j: int| 0 <= j < 12 ==> #[trigger] idx@[j] < 32,
            pin@ == pin_text(idx@).subrange(0, if i <= 4 { i as int } else if i <= 8 { i + 1 } else { i + 2 }),
        decreases 12 - i,
    {
        if i > 0 && i % 4 == 0 {
            push_char(&mut pin, '-');
        }
        push_char(&mut pin, alphabet[idx[i] as usize]);
        proof {
            let n = if i + 1 <= 4 { i + 1 } else if i + 1 <= 8 { i + 2 } else { i + 3 };
            assert(pin@ =~= pin_text(idx@).subrange(0, n as int));
        }
        i = i + 1;
    }
    assert(pin@ =~= pin_text(idx@));
    pin
}

/// Generates a fresh random session PIN such as `"ABCD-2345-WXYZ"`.
pub fn generate_session_pin() -> (pin: String)
    ensures
        exists|idx: Seq<u32>| idx.len() == 12 && (forall|i: int| 0 <= i < 12 ==> #[trigger] idx[i] < 32) && pin@ == pin_text(idx),
{
    let mut idx = [0u32; 12];
    let mut i: usize = 0;
    while i < 12
        invariant
            0 <= i <= 12,
            forall|j: int| 0 <= j < 12 ==> #[trigger] idx@[j] < 32,
        decreases 12 - i,
    {
        idx[i] = random_below(0, 32);
        i = i + 1;
    }
    session_pin_from_indices(&idx)
}

/// `s` with every `c` removed.
pub open spec fn remove_char(s: Seq<char>, c: char) -> Seq<char>
    decreases s.len(),
{
    if s.len() == 0 {
        s
    } else if s.last() == c {
        remove_char(s.drop_last(), c)
    } else {
        remove_char(s.drop_last(), c).push(s.last())
    }
}

/// The PIN without its dashes, as the key derivation takes it (`pin.replace("-", "")`).
pub fn strip_dashes(pin: &str) -> (r: String)
    ensures
        r@ == remove_char(pin@, '-'),
{
    let cs = chars_of(pin);
    let mut r = String::new();
    let mut i: usize = 0;
    while i < cs.len()
        invariant
            0 <= i <= cs@.len(),
            cs@ == pin@,
            r@ == remove_char(cs@.subrange(0, i as int), '-'),
        decreases cs@.len() - i,
    {
        assert(cs@.subrange(0, i + 1).drop_last() =~= cs@.subrange(0, i as int));
        if cs[i] != '-' {
            push_char(&mut r, cs[i]);
        }
        i = i + 1;
    }
    assert(cs@.subrange(0, cs@.len() as int) =~= cs@);
    r
}

/// The dashboard name of a machine saved after connecting: `"Machine "` and the
/// first four bytes of its id.
pub fn machine_display_name(id: &str) -> (name: String)
    requires
        is_char_boundary(id.spec_bytes(), 4),
    ensures
        name@ == "Machine "@ + decode_utf8(id.spec_bytes().subrange(0, 4)),
{
    let (head, _) = id.split_at(4);
    proof {
        broadcast use vstd::utf8::group_utf8_lib;
        assert(decode_utf8(encode_utf8(head@)) == head@);
    }
    let mut name = String::new();
    push_str(&mut name, "Machine ");
    push_str(&mut name, head);
    name
}

/// The entry that records a successful connection to `id` at `now` (seconds
/// since the Unix epoch).
pub fn saved_machine(id: &str, now: u64) -> (m: SavedMachine)
    requires
        is_char_boundary(id.spec_bytes(), 4),
    ensures
        m.id@ == id@,
        m.name@ == "Machine "@ + decode_utf8(id.spec_bytes().subrange(0, 4)),
        m.is_online,
        m.last_connected == now,
{
    SavedMachine { id: id.to_owned(), name: machine_display_name(id), is_online: true, last_connected: now }
}

/// The saved machines whose id is not `id`, in their order.
pub open spec fn machines_except(ms: Seq<SavedMachine>, id: Seq<char>) -> Seq<SavedMachine>
    decreases ms.len(),
{
    if ms.len() == 0 {
        ms
    } else if ms.last().id@ == id {
        machines_except(ms.drop_last(), id)
    } else {
        machines_except(ms.drop_last(), id).push(ms.last())
    }
}

/// Saves `m` in the list of machines, replacing any earlier entry with its id;
/// the newest entry comes last.
pub fn upsert_machine(machines: Vec<SavedMachine>, m: SavedMachine) -> (r: Vec<SavedMachine>)
    ensures
        r@ == machines_except(machines@, m.id@).push(m),
{
    let mut r: Vec<SavedMachine> = Vec::new();
    let mut machines = machines;
    let ghost all = machines@;
    let n = machines.len();
    let mut i: usize = 0;
    while machines.len() > 0
        invariant
            n == all.len(),
            machines@.len() + i == all.len(),
            machines@ == all.subrange(i as int, all.len() as int),
            r@ == machines_except(all.subrange(0, i as int), m.id@),
        decreases machines@.len(),
    {
        let e = machines.remove(0);
        assert(e == all[i as int]);
        assert(machines@ =~= all.subrange(i + 1, all.len() as int));
        assert(all.subrange(0, i + 1).drop_last() =~= all.subrange(0, i as int));
        if e.id != m.id {
            r.push(e);
        }
        i = i + 1;
    }
    assert(all.subrange(0, all.len() as int) =~= all);
    r.push(m);
    r
}

/// The discovered LAN device ids other than this device's, in their order.
pub open spec fn other_ids(ids: Seq<String>, local: Seq<char>) -> Seq<Seq<char>>
    decreases ids.len(),
{
    if ids.len() == 0 {
        Seq::empty()
    } else if ids.last()@ == local {
        other_ids(ids.drop_last(), local)
    } else {
        other_ids(ids.drop_last(), local).push(ids.last()@)
    }
}

/// The machines that LAN discovery found, this device excepted, named
/// `"<id> (LAN)"` and marked online.
pub fn lan_machines(discovered: &Vec<String>, local_id: &String) -> (r: Vec<SavedMachine>)
    ensures
        r@.len() == other_ids(discovered@, local_id@).len(),
        forall|i: int| 0 <= i < r@.len() ==> {
            &&& (#[trigger] r@[i]).id@ == other_ids(discovered@, local_id@)[i]
            &&& r@[i].name@ == other_ids(discovered@, local_id@)[i] + " (LAN)"@
            &&& r@[i].is_online
            &&& r@[i].last_connected == 0
        },
{
    let mut r: Vec<SavedMachine> = Vec::new();
    let mut i: usize = 0;
    while i < discovered.len()
        invariant
            0 <= i <= discovered@.len(),
            r@.len() == other_ids(discovered@.subrange(0, i as int), local_id@).len(),
            forall|k: int| 0 <= k < r@.len() ==> {
                &&& (#[trigger] r@[k]).id@ == other_ids(discovered@.subrange(0, i as int), local_id@)[k]
                &&& r@[k].name@ == other_ids(discovered@.subrange(0, i as int), local_id@)[k] + " (LAN)"@
                &&& r@[k].is_online
                &&& r@[k].last_connected == 0
            },
        decreases discovered@.len() - i,
    {
        assert(discovered@.subrange(0, i + 1).drop_last() =~= discovered@.subrange(0, i as int));
        let id = &discovered[i];
        if *id != *local_id {
            let mut name = String::new();
            push_str(&mut name, id.as_str());
            push_str(&mut name, " (LAN)");
            r.push(SavedMachine { id: id.clone(), name, is_online: true, last_connected: 0 });
        }
        i = i + 1;
    }
    assert(discovered@.subrange(0, discovered@.len() as int) =~= discovered@);
    r
}

/// The device id to use: the one already in use this session, else the one in
/// the configuration, else a fresh one, which the second result asks to save.
pub fn resolve_device_id(cached: &String, configured: Option<&String>) -> (r: (String, bool))
    ensures
        cached@.len() > 0 ==> r.0@ == cached@ && !r.1,
        cached@.len() == 0 && (configured matches Some(c) && c@.len() > 0) ==> r.0@ == configured.unwrap()@ && !r.1,
        cached@.len() == 0 && !(configured matches Some(c) && c@.len() > 0) ==> r.1 && exists|r1: u32, r2: u32|
            1000 <= r1 < 9999 && 1000 <= r2 < 9999 && r.0@ == device_id_text(r1, r2),
{
    if !string_is_empty(cached) {
        return (cached.clone(), false);
    }
    match configured {
        Some(c) => {
            if !string_is_empty(c) {
                return (c.clone(), false);
            }
        },
        None => {},
    }
    (new_device_id(), true)
}

} // verus!
