//! The settings of the web controller, and where it can be reached.

use vstd::prelude::*;

use crate::api::authorization::Address;

verus! {

/// Whether and where the controller listens.
#[derive(Clone, Copy, Debug, PartialEq, Eq, Structural)]
pub struct ControllerSettings {
    pub enabled: bool,
    pub address: Address,
    pub port: u16,
}

impl Default for ControllerSettings {
    fn default() -> (result: Self)
        ensures
            result == (ControllerSettings {
                enabled: false,
                address: Address::V4(0x7f00_0001),
                port: 1717,
            }),
    {
        ControllerSettings { enabled: false, address: Address::V4(0x7f00_0001), port: 1717 }
    }
}

/// An address and a port.
#[derive(Clone, Copy, Debug, PartialEq, Eq, Structural)]
pub struct SocketAddress {
    pub address: Address,
    pub port: u16,
}

/// The controller as clients see it.
pub struct ControllerStatus {
    pub address: Option<SocketAddress>,
    pub token: String,
    pub error: Option<String>,
}

/// The order of addresses of one family.
pub open spec fn address_number(address: Address) -> int {
    match address {
        Address::V4(n) => n as int,
        Address::V6(n) => n as int,
    }
}

pub open spec fn same_family(a: Address, b: Address) -> bool {
    a is V4 <==> b is V4
}

/// The address that stands for all of them.
pub open spec fn is_unspecified(address: Address) -> bool {
    address_number(address) == 0
}

fn number_of(address: Address) -> (result: u128)
    ensures
        result == address_number(address),
{
    match address {
        Address::V4(n) => n as u128,
        Address::V6(n) => n,
    }
}

fn is_v4(address: Address) -> (result: bool)
    ensures
        result == address is V4,
{
    match address {
        Address::V4(_) => true,
        Address::V6(_) => false,
    }
}

/// The addresses are of one family and port, and in order without repetitions.
pub open spec fn in_order(list: Seq<SocketAddress>, like: SocketAddress) -> bool {
    &&& forall|i: int|
        0 <= i < list.len() ==> same_family((#[trigger] list[i]).address, like.address)
            && list[i].port == like.port
    &&& forall|i: int, j: int|
        0 <= i < j < list.len() ==> address_number((#[trigger] list[i]).address) < address_number(
            (#[trigger] list[j]).address,
        )
}

fn insert_address(list: &mut Vec<SocketAddress>, item: SocketAddress)
    requires
        in_order(old(list)@, item),
    ensures
        in_order(final(list)@, item),
        forall|x: SocketAddress|
            final(list)@.contains(x) <==> old(list)@.contains(x) || x == item,
{
    let ghost before = list@;
    let n: u128 = number_of(item.address);
    let mut i: usize = 0;
    while i < list.len() && number_of(list[i].address) < n
        invariant
            i <= list@.len(),
            list@ == before,
            n == address_number(item.address),
            forall|j: int| 0 <= j < i ==> address_number((#[trigger] before[j]).address) < n,
        decreases list@.len() - i,
    {
        i += 1;
    }
    if i < list.len() && number_of(list[i].address) == n {
        proof {
            assert(before[i as int] == item);
            assert forall|x: SocketAddress|
                before.contains(x) <==> before.contains(x) || x == item by {
                assert(before.contains(before[i as int]));
            }
        }
        return;
    }
    list.insert(i, item);
    proof {
        let after = list@;
        assert(after =~= before.insert(i as int, item));
        assert forall|a: int, b: int| 0 <= a < b < after.len() implies address_number(
            (#[trigger] after[a]).address,
        ) < address_number((#[trigger] after[b]).address) by {
            if b < i {
                assert(after[a] == before[a] && after[b] == before[b]);
            } else if b == i {
                assert(after[a] == before[a]);
            } else if a < i {
                assert(after[a] == before[a] && after[b] == before[b - 1]);
            } else if a == i {
                assert(after[b] == before[b - 1]);
                if b - 1 > i {
                    assert(address_number(before[i as int].address) < address_number(
                        before[b - 1].address,
                    ));
                }
            } else {
                assert(after[a] == before[a - 1] && after[b] == before[b - 1]);
            }
        }
        assert forall|k: int| 0 <= k < after.len() implies same_family(
            (#[trigger] after[k]).address,
            item.address,
        ) && after[k].port == item.port by {
            if k < i {
                assert(after[k] == before[k]);
            } else if k > i {
                assert(after[k] == before[k - 1]);
            }
        }
        assert forall|x: SocketAddress| after.contains(x) <==> before.contains(x) || x == item by {
            if before.contains(x) {
                let k = choose|k: int| 0 <= k < before.len() && before[k] == x;
                if k < i {
                    assert(after[k] == x);
                } else {
                    assert(after[k + 1] == x);
                }
            }
            if after.contains(x) {
                let k = choose|k: int| 0 <= k < after.len() && after[k] == x;
                if k < i {
                    assert(before[k] == x);
                } else if k > i {
                    assert(before[k - 1] == x);
                }
            }
            assert(after[i as int] == item);
        }
    }
}

impl ControllerStatus {
    /// The addresses under which the controller can be reached. One that listens everywhere is
    /// reached under each address of the network of the same family.
    pub fn addresses(&self, network: &Vec<Address>) -> (result: Vec<SocketAddress>)
        ensures
            match self.address {
                None => result@.len() == 0,
                Some(own) => if !is_unspecified(own.address) {
                    result@ == seq![own]
                } else {
                    &&& in_order(result@, own)
                    &&& forall|x: SocketAddress|
                        result@.contains(x) <==> x.port == own.port && same_family(
                            x.address,
                            own.address,
                        ) && network@.contains(x.address)
                },
            },
    {
        let mut list: Vec<SocketAddress> = Vec::new();
        let own = match self.address {
            Some(own) => own,
            None => {
                return list;
            },
        };
        if number_of(own.address) != 0 {
            list.push(own);
            assert(list@ =~= seq![own]);
            return list;
        }
        let mut i: usize = 0;
        while i < network.len()
            invariant
                i <= network@.len(),
                in_order(list@, own),
                forall|x: SocketAddress|
                    list@.contains(x) <==> x.port == own.port && same_family(x.address, own.address)
                        && network@.take(i as int).contains(x.address),
            decreases network@.len() - i,
        {
            let address: Address = network[i];
            let ghost before = list@;
            let ghost at = i as int;
            if is_v4(address) == is_v4(own.address) {
                insert_address(&mut list, SocketAddress { address, port: own.port });
            }
            proof {
                let earlier = network@.take(at);
                let now = network@.take(at + 1);
                assert(now =~= earlier.push(address));
                assert forall|x: SocketAddress|
                    list@.contains(x) <==> x.port == own.port && same_family(x.address, own.address)
                        && now.contains(x.address) by {
                    assert(now.contains(x.address) <==> earlier.contains(x.address) || x.address
                        == address) by {
                        if earlier.contains(x.address) {
                            let k = choose|k: int|
                                0 <= k < earlier.len() && earlier[k] == x.address;
                            assert(now[k] == x.address);
                        }
                        assert(now[at] == address);
                        if now.contains(x.address) {
                            let k = choose|k: int| 0 <= k < now.len() && now[k] == x.address;
                            if k < at {
                                assert(earlier[k] == x.address);
                            }
                        }
                    }
                    assert(before.contains(x) <==> x.port == own.port && same_family(
                        x.address,
                        own.address,
                    ) && earlier.contains(x.address));
                }
            }
            i += 1;
        }
        assert(network@.take(i as int) =~= network@);
        list
    }
}

/// The token that is used: the stored one, unless there is none or another is asked for.
pub fn access_token(stored: Option<String>, regenerate: bool) -> (result: Option<String>)
    ensures
        result == if !regenerate && stored is Some && stored->0@.len() > 0 {
            stored
        } else {
            None
        },
{
    match stored {
        Some(token) => if !regenerate && !token.as_str().is_empty() {
            Some(token)
        } else {
            None
        },
        None => None,
    }
}

/// The API is not served without a token.
pub fn serve(token: &str) -> (result: Result<(), &'static str>)
    ensures
        match result {
            Ok(()) => token@.len() > 0,
            Err(message) => token@.len() == 0 && message@ == "An API token is required"@,
        },
{
    if token.is_empty() {
        Err("An API token is required")
    } else {
        Ok(())
    }
}

} // verus!
