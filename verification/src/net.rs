//! Network identity: maps the 4-byte "magic" start string at the front of
//! every frame to and from the closed set of known networks.

use vstd::prelude::*;

use crate::error::{CodecError, CodecErrorView};

verus! {

/// The network a message belongs to. Each variant owns a unique, fixed
/// 4-byte magic value; the mapping magic <-> variant is a bijection.
#[derive(Debug, Clone, Copy, PartialEq, Eq, Structural)]
pub enum NetworkType {
    Main,
    Test,
    RegTest,
}

/// The 4-byte magic that opens every frame of network `n`.
pub open spec fn start_seq(n: NetworkType) -> Seq<u8> {
    match n {
        NetworkType::Main => seq![0xf9u8, 0xbeu8, 0xb4u8, 0xd9u8],
        NetworkType::Test => seq![0x0bu8, 0x11u8, 0x09u8, 0x07u8],
        NetworkType::RegTest => seq![0xfau8, 0xbfu8, 0xb5u8, 0xdau8],
    }
}

/// Which network, if any, the 4-byte sequence `s` identifies.
pub open spec fn parse_start(s: Seq<u8>) -> Option<NetworkType> {
    if s == start_seq(NetworkType::Main) {
        Some(NetworkType::Main)
    } else if s == start_seq(NetworkType::Test) {
        Some(NetworkType::Test)
    } else if s == start_seq(NetworkType::RegTest) {
        Some(NetworkType::RegTest)
    } else {
        None
    }
}

/// The magic values of distinct networks differ, and parsing the magic of a
/// network gives that network back: the mapping is a bijection.
pub proof fn lemma_start_bijective(n: NetworkType)
    ensures
        parse_start(start_seq(n)) == Some(n),
{
    match n {
        NetworkType::Main => {}
        NetworkType::Test => {
            assert(start_seq(NetworkType::Test) != start_seq(NetworkType::Main)) by {
                assert(start_seq(NetworkType::Test)[0] != start_seq(NetworkType::Main)[0]);
            }
        }
        NetworkType::RegTest => {
            assert(start_seq(NetworkType::RegTest) != start_seq(NetworkType::Main)) by {
                assert(start_seq(NetworkType::RegTest)[0] != start_seq(NetworkType::Main)[0]);
            }
            assert(start_seq(NetworkType::RegTest) != start_seq(NetworkType::Test)) by {
                assert(start_seq(NetworkType::RegTest)[0] != start_seq(NetworkType::Test)[0]);
            }
        }
    }
}

impl NetworkType {
    /// The fixed 4-byte magic of this network.
    pub fn start_string(&self) -> (r: [u8; 4])
        ensures
            r@ == start_seq(*self),
    {
        match self {
            NetworkType::Main => {
                let r = [0xf9u8, 0xbeu8, 0xb4u8, 0xd9u8];
                proof {
                    assert(r@ =~= start_seq(NetworkType::Main));
                }
                r
            }
            NetworkType::Test => {
                let r = [0x0bu8, 0x11u8, 0x09u8, 0x07u8];
                proof {
                    assert(r@ =~= start_seq(NetworkType::Test));
                }
                r
            }
            NetworkType::RegTest => {
                let r = [0xfau8, 0xbfu8, 0xb5u8, 0xdau8];
                proof {
                    assert(r@ =~= start_seq(NetworkType::RegTest));
                }
                r
            }
        }
    }

    /// Looks the 4 given bytes up among the known magics; unknown bytes are
    /// rejected with an error carrying them for diagnostics.
    pub fn from_start_string(src: [u8; 4]) -> (r: Result<NetworkType, CodecError>)
        ensures
            match parse_start(src@) {
                Some(n) => r == Ok::<NetworkType, CodecError>(n),
                None => (r matches Err(e) && e@ == CodecErrorView::InvalidStartBytes(src@)),
            },
    {
        if src[0] == 0xf9 && src[1] == 0xbe && src[2] == 0xb4 && src[3] == 0xd9 {
            proof {
                assert(src@ =~= start_seq(NetworkType::Main));
            }
            Ok(NetworkType::Main)
        } else if src[0] == 0x0b && src[1] == 0x11 && src[2] == 0x09 && src[3] == 0x07 {
            proof {
                assert(src@ =~= start_seq(NetworkType::Test));
            }
            Ok(NetworkType::Test)
        } else if src[0] == 0xfa && src[1] == 0xbf && src[2] == 0xb5 && src[3] == 0xda {
            proof {
                assert(src@ =~= start_seq(NetworkType::RegTest));
            }
            Ok(NetworkType::RegTest)
        } else {
            proof {
                assert(parse_start(src@) is None) by {
                    if src@ == start_seq(NetworkType::Main) {
                        assert(src@[0] == 0xf9 && src@[1] == 0xbe && src@[2] == 0xb4 && src@[3]
                            == 0xd9);
                    }
                    if src@ == start_seq(NetworkType::Test) {
                        assert(src@[0] == 0x0b && src@[1] == 0x11 && src@[2] == 0x09 && src@[3]
                            == 0x07);
                    }
                    if src@ == start_seq(NetworkType::RegTest) {
                        assert(src@[0] == 0xfa && src@[1] == 0xbf && src@[2] == 0xb5 && src@[3]
                            == 0xda);
                    }
                }
            }
            Err(CodecError::InvalidStartBytes(src))
        }
    }
}

} // verus!
