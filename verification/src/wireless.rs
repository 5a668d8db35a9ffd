//! The wireless link: which network the named interface is associated with,
//! and the block that shows it.

use vstd::prelude::*;
use vstd::utf8::{decode_utf8, encode_utf8, valid_utf8};
use crate::block::{plain_block, Block, BlockView, ColorTier};

verus! {

/// What a wireless interface reports of itself, as raw attribute payloads.
#[derive(Debug, PartialEq, Eq)]
pub struct Interface {
    /// The interface name, terminated by a zero byte.
    pub name: Option<Vec<u8>>,
    /// The identity of the network the interface is associated with.
    pub ssid: Option<Vec<u8>>,
}

/// The interfaces could not be queried.
#[derive(Clone, Copy, Debug, PartialEq, Eq, Structural)]
pub struct QueryFailed;

/// The payload under which an interface called `name` reports its name.
pub open spec fn name_payload(name: Seq<char>) -> Seq<u8> {
    encode_utf8(name) + seq![0u8]
}

/// The network identity that `interface` reports as text, where it is called
/// `name` and reports one that is valid UTF-8.
pub open spec fn reported_ssid(interface: Interface, name: Seq<char>) -> Option<Seq<char>> {
    match (interface.name, interface.ssid) {
        (Some(payload), Some(ssid)) => if payload@ == name_payload(name) && valid_utf8(ssid@) {
            Some(decode_utf8(ssid@))
        } else {
            None
        },
        _ => None,
    }
}

/// The network identity of the first interface that reports one under `name`.
pub open spec fn associated_ssid(interfaces: Seq<Interface>, name: Seq<char>) -> Option<Seq<char>>
    decreases interfaces.len(),
{
    if interfaces.len() == 0 {
        None
    } else {
        match reported_ssid(interfaces[0], name) {
            Some(ssid) => Some(ssid),
            None => associated_ssid(interfaces.drop_first(), name),
        }
    }
}

/// The block for the outcome of looking up the association.
pub open spec fn wifi_block_of(outcome: Result<Option<Seq<char>>, QueryFailed>) -> BlockView {
    match outcome {
        Ok(Some(ssid)) => plain_block(ssid, Some(ColorTier::Good)),
        Ok(None) => plain_block("no wifi"@, Some(ColorTier::Unknown)),
        Err(_) => plain_block("wifi error"@, Some(ColorTier::Bad)),
    }
}

/// The block for the interface called `name`, given the outcome of querying the interfaces.
pub open spec fn wifi_block(
    scan: Result<Vec<Interface>, QueryFailed>,
    name: Seq<char>,
) -> BlockView {
    match scan {
        Ok(interfaces) => wifi_block_of(Ok(associated_ssid(interfaces@, name))),
        Err(failure) => wifi_block_of(Err(failure)),
    }
}

/// `String::from_utf8` of std: succeeds exactly on valid UTF-8, and then
/// returns the text that the bytes encode.
#[verifier::external_body]
fn text_of_utf8(bytes: Vec<u8>) -> (r: Option<String>)
    ensures
        r is Some <==> valid_utf8(bytes@),
        r matches Some(text) ==> text@ == decode_utf8(bytes@),
{
    String::from_utf8(bytes).ok()
}

/// Whether two byte strings are the same.
pub fn same_bytes(a: &Vec<u8>, b: &Vec<u8>) -> (r: bool)
    ensures
        r == (a@ == b@),
{
    if a.len() != b.len() {
        return false;
    }
    let mut i: usize = 0;
    while i < a.len()
        invariant
            a.len() == b.len(),
            0 <= i <= a.len(),
            forall|j: int| 0 <= j < i ==> a[j] == b[j],
        decreases a.len() - i,
    {
        if a[i] != b[i] {
            return false;
        }
        i = i + 1;
    }
    assert(a@ =~= b@);
    true
}

/// Returns the network identity that the interface called `name` is
/// associated with: that of the first interface of this name that reports one
/// as valid UTF-8, or `None` where there is no such interface.
pub fn get_if_name(interfaces: &Vec<Interface>, name: &str) -> (r: Option<String>)
    ensures
        r is Some <==> associated_ssid(interfaces@, name@) is Some,
        r matches Some(ssid) ==> Some(ssid@) == associated_ssid(interfaces@, name@),
{
    let mut wanted = name.as_bytes_vec();
    wanted.push(0);
    assert(wanted@ =~= name_payload(name@));
    assert(interfaces@.skip(0) =~= interfaces@);
    let mut i: usize = 0;
    while i < interfaces.len()
        invariant
            0 <= i <= interfaces.len(),
            wanted@ == name_payload(name@),
            associated_ssid(interfaces@, name@) == associated_ssid(
                interfaces@.skip(i as int),
                name@,
            ),
        decreases interfaces.len() - i,
    {
        let interface = &interfaces[i];
        let ghost rest = interfaces@.skip(i as int);
        assert(rest[0] == interfaces@[i as int]);
        assert(rest.drop_first() =~= interfaces@.skip(i + 1));
        if let Some(payload) = &interface.name {
            if same_bytes(payload, &wanted) {
                if let Some(ssid) = &interface.ssid {
                    if let Some(text) = text_of_utf8(ssid.clone()) {
                        return Some(text);
                    }
                }
            }
        }
        i = i + 1;
    }
    None
}

/// Builds the block for the outcome of looking up the association.
pub fn wifi_block_for(outcome: Result<Option<String>, QueryFailed>) -> (r: Block)
    ensures
        r@ == wifi_block_of(
            match outcome {
                Ok(Some(ssid)) => Ok(Some(ssid@)),
                Ok(None) => Ok(None),
                Err(failure) => Err(failure),
            },
        ),
{
    match outcome {
        Ok(Some(ssid)) => Block::plain(ssid, Some(ColorTier::Good)),
        Ok(None) => Block::plain(String::from_str("no wifi"), Some(ColorTier::Unknown)),
        Err(_) => Block::plain(String::from_str("wifi error"), Some(ColorTier::Bad)),
    }
}

/// Builds the block for the interface called `name` from the outcome of
/// querying the interfaces.
pub fn make_wifi_block(scan: &Result<Vec<Interface>, QueryFailed>, name: &str) -> (r: Block)
    ensures
        r@ == wifi_block(*scan, name@),
{
    match scan {
        Ok(interfaces) => wifi_block_for(Ok(get_if_name(interfaces, name))),
        Err(failure) => wifi_block_for(Err(*failure)),
    }
}

/// Each of the three outcomes has its own tier, and the two without an
/// identity have their own fixed text.
pub proof fn lemma_outcomes_are_told_apart(outcome: Result<Option<Seq<char>>, QueryFailed>)
    ensures
        !wifi_block_of(outcome).separator,
        outcome matches Ok(Some(ssid)) ==> wifi_block_of(outcome).full_text == ssid
            && wifi_block_of(outcome).color == Some(ColorTier::Good),
        outcome matches Ok(None) ==> wifi_block_of(outcome).full_text == "no wifi"@
            && wifi_block_of(outcome).color == Some(ColorTier::Unknown),
        outcome is Err ==> wifi_block_of(outcome).full_text == "wifi error"@ && wifi_block_of(
            outcome,
        ).color == Some(ColorTier::Bad),
{
}

/// Two outcomes of different kinds never give the same tier.
pub proof fn lemma_tier_tells_outcome(
    a: Result<Option<Seq<char>>, QueryFailed>,
    b: Result<Option<Seq<char>>, QueryFailed>,
)
    requires
        wifi_block_of(a).color == wifi_block_of(b).color,
    ensures
        a is Err <==> b is Err,
        a matches Ok(Some(_)) <==> b matches Ok(Some(_)),
        a matches Ok(None) <==> b matches Ok(None),
{
}

} // verus!
