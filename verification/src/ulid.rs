use vstd::prelude::*;

verus! {

/// The lowercase hexadecimal digit for a nibble value.
pub open spec fn hex_char(n: u8) -> char {
    if n == 0 {
        '0'
    } else if n == 1 {
        '1'
    } else if n == 2 {
        '2'
    } else if n == 3 {
        '3'
    } else if n == 4 {
        '4'
    } else if n == 5 {
        '5'
    } else if n == 6 {
        '6'
    } else if n == 7 {
        '7'
    } else if n == 8 {
        '8'
    } else if n == 9 {
        '9'
    } else if n == 10 {
        'a'
    } else if n == 11 {
        'b'
    } else if n == 12 {
        'c'
    } else if n == 13 {
        'd'
    } else if n == 14 {
        'e'
    } else {
        'f'
    }
}

pub open spec fn is_hex_digit(c: char) -> bool {
    ('0' <= c && c <= '9') || ('a' <= c && c <= 'f')
}

/// Two lowercase hex digits for one byte.
pub open spec fn hex_of_byte(b: u8) -> Seq<char> {
    seq![hex_char(b / 16), hex_char(b % 16)]
}

/// The lowercase hex encoding of a byte sequence.
pub open spec fn hex_of(bytes: Seq<u8>) -> Seq<char>
    decreases bytes.len(),
{
    if bytes.len() == 0 {
        Seq::empty()
    } else {
        hex_of(bytes.drop_last()) + hex_of_byte(bytes.last())
    }
}

proof fn lemma_hex_of_len(bytes: Seq<u8>)
    ensures
        hex_of(bytes).len() == 2 * bytes.len(),
    decreases bytes.len(),
{
    if bytes.len() > 0 {
        lemma_hex_of_len(bytes.drop_last());
    }
}

proof fn lemma_hex_of_all_hex(bytes: Seq<u8>)
    ensures
        forall|i: int| 0 <= i < hex_of(bytes).len() ==> is_hex_digit(#[trigger] hex_of(bytes)[i]),
    decreases bytes.len(),
{
    if bytes.len() > 0 {
        lemma_hex_of_all_hex(bytes.drop_last());
        lemma_hex_of_len(bytes.drop_last());
    }
}

/// The single-character string for a nibble value.
pub(crate) fn hex_char_str(n: u8) -> (r: &'static str)
    requires
        n < 16,
    ensures
        r@ =~= seq![hex_char(n)],
{
    if n == 0 {
        proof {
            reveal_strlit("0");
        }
        "0"
    } else if n == 1 {
        proof {
            reveal_strlit("1");
        }
        "1"
    } else if n == 2 {
        proof {
            reveal_strlit("2");
        }
        "2"
    } else if n == 3 {
        proof {
            reveal_strlit("3");
        }
        "3"
    } else if n == 4 {
        proof {
            reveal_strlit("4");
        }
        "4"
    } else if n == 5 {
        proof {
            reveal_strlit("5");
        }
        "5"
    } else if n == 6 {
        proof {
            reveal_strlit("6");
        }
        "6"
    } else if n == 7 {
        proof {
            reveal_strlit("7");
        }
        "7"
    } else if n == 8 {
        proof {
            reveal_strlit("8");
        }
        "8"
    } else if n == 9 {
        proof {
            reveal_strlit("9");
        }
        "9"
    } else if n == 10 {
        proof {
            reveal_strlit("a");
        }
        "a"
    } else if n == 11 {
        proof {
            reveal_strlit("b");
        }
        "b"
    } else if n == 12 {
        proof {
            reveal_strlit("c");
        }
        "c"
    } else if n == 13 {
        proof {
            reveal_strlit("d");
        }
        "d"
    } else if n == 14 {
        proof {
            reveal_strlit("e");
        }
        "e"
    } else {
        proof {
            reveal_strlit("f");
        }
        "f"
    }
}

/// The byte at position `i` of a packed token identifier: the first six
/// bytes carry the timestamp, big endian; the next eight carry the user
/// entropy word, big endian; the last two carry the sequence counter.
pub open spec fn packed_byte(timestamp: u64, entropy: u64, sequence: u16, i: int) -> u8 {
    if 0 <= i < 6 {
        ((timestamp >> (8 * (5 - i)) as u64) & 0xff) as u8
    } else if 6 <= i < 14 {
        ((entropy >> (8 * (13 - i)) as u64) & 0xff) as u8
    } else if i == 14 {
        ((sequence >> 8) & 0xff) as u8
    } else {
        (sequence & 0xff) as u8
    }
}

pub open spec fn packed_bytes(timestamp: u64, entropy: u64, sequence: u16) -> Seq<u8> {
    Seq::new(16, |i: int| packed_byte(timestamp, entropy, sequence, i))
}

proof fn lemma_shift_mask_fits(x: u64, k: u64)
    by (bit_vector)
    ensures
        ((x >> k) & 0xff) < 256,
        x >> 0 == x,
{
}

proof fn lemma_shr_48_fits(x: u64)
    by (bit_vector)
    ensures
        (x >> 48) < 0x10000,
{
}

proof fn lemma_seq_mask_fits(s: u16)
    by (bit_vector)
    ensures
        ((s >> 8) & 0xff) < 256,
        (s & 0xff) < 256,
{
}

/// Packs a timestamp, an entropy word and a sequence counter into the
/// sixteen bytes of a token identifier.
pub fn pack_ulid_bytes(timestamp: u64, entropy: u64, sequence: u16) -> (b: [u8; 16])
    ensures
        b@ =~= packed_bytes(timestamp, entropy, sequence),
{
    proof {
        lemma_shift_mask_fits(timestamp, 40);
        lemma_shift_mask_fits(timestamp, 32);
        lemma_shift_mask_fits(timestamp, 24);
        lemma_shift_mask_fits(timestamp, 16);
        lemma_shift_mask_fits(timestamp, 8);
        lemma_shift_mask_fits(timestamp, 0);
        lemma_shift_mask_fits(entropy, 0);
        lemma_shift_mask_fits(entropy, 56);
        lemma_shift_mask_fits(entropy, 48);
        lemma_shift_mask_fits(entropy, 40);
        lemma_shift_mask_fits(entropy, 32);
        lemma_shift_mask_fits(entropy, 24);
        lemma_shift_mask_fits(entropy, 16);
        lemma_shift_mask_fits(entropy, 8);
        lemma_seq_mask_fits(sequence);
    }
    [
        ((timestamp >> 40) & 0xff) as u8,
        ((timestamp >> 32) & 0xff) as u8,
        ((timestamp >> 24) & 0xff) as u8,
        ((timestamp >> 16) & 0xff) as u8,
        ((timestamp >> 8) & 0xff) as u8,
        ((timestamp >> 0) & 0xff) as u8,
        ((entropy >> 56) & 0xff) as u8,
        ((entropy >> 48) & 0xff) as u8,
        ((entropy >> 40) & 0xff) as u8,
        ((entropy >> 32) & 0xff) as u8,
        ((entropy >> 24) & 0xff) as u8,
        ((entropy >> 16) & 0xff) as u8,
        ((entropy >> 8) & 0xff) as u8,
        ((entropy >> 0) & 0xff) as u8,
        ((sequence >> 8) & 0xff) as u8,
        (sequence & 0xff) as u8,
    ]
}

proof fn lemma_hex_of_push(bytes: Seq<u8>, b: u8)
    ensures
        hex_of(bytes.push(b)) =~= hex_of(bytes) + hex_of_byte(b),
{
    assert(bytes.push(b).drop_last() =~= bytes);
    assert(bytes.push(b).last() == b);
}

/// Generator of unique, time-ordered token identifiers.
pub struct Ulid {
    last_timestamp: u64,
    sequence: u16,
}

impl Ulid {
    pub closed spec fn spec_last_timestamp(&self) -> u64 {
        self.last_timestamp
    }

    pub closed spec fn spec_sequence(&self) -> u16 {
        self.sequence
    }

    pub fn new() -> (r: Self)
        ensures
            r.spec_last_timestamp() == 0,
            r.spec_sequence() == 0,
    {
        Ulid { last_timestamp: 0, sequence: 0 }
    }

    /// Renders sixteen identifier bytes as their lowercase hex string.
    pub fn bytes_to_string(ulid_bytes: [u8; 16]) -> (r: String)
        ensures
            r@ =~= hex_of(ulid_bytes@),
    {
        let mut r = String::new();
        let mut i: usize = 0;
        while i < 16
            invariant
                0 <= i <= 16,
                ulid_bytes@.len() == 16,
                r@ =~= hex_of(ulid_bytes@.take(i as int)),
            decreases 16 - i,
        {
            let b = ulid_bytes[i];
            let hi = b / 16;
            let lo = b % 16;
            r.append(hex_char_str(hi));
            r.append(hex_char_str(lo));
            proof {
                let prefix = ulid_bytes@.take(i as int);
                lemma_hex_of_push(prefix, b);
                assert(prefix.push(b) =~= ulid_bytes@.take(i + 1 as int));
            }
            i = i + 1;
        }
        proof {
            assert(ulid_bytes@.take(16) =~= ulid_bytes@);
        }
        r
    }

    /// Produces the identifier string for one call: the packed bytes of the
    /// generation timestamp, a per-user entropy word and the bumped sequence
    /// counter, rendered in hex.  The packed timestamp is never below the
    /// stored one, and what the generator keeps for the next call is its top
    /// sixteen bits.
    pub fn generate(&mut self, user_id: &i32) -> (r: String)
        ensures
            final(self).spec_sequence() == ((old(self).spec_sequence() + 1) % 0x10000) as u16,
            final(self).spec_last_timestamp() < 0x10000,
            r@.len() == 32,
            forall|i: int| 0 <= i < 32 ==> is_hex_digit(#[trigger] r@[i]),
            exists|timestamp: u64, entropy: u64|
                {
                    &&& timestamp >= old(self).spec_last_timestamp()
                    &&& final (self).spec_last_timestamp() == timestamp >> 48
                    &&& r@ == hex_of(
                        #[trigger] packed_bytes(timestamp, entropy, final (self).spec_sequence()),
                    )
                },
    {
        let current_timestamp = now_unix_millis();
        let timestamp = if self.last_timestamp > current_timestamp {
            self.last_timestamp
        } else {
            current_timestamp
        };
        // Packing consumes the stored timestamp byte by byte, shifting it
        // right six times; only the top sixteen bits survive to the next
        // call.
        self.last_timestamp = timestamp >> 48;

        let hash_result = hash_of_user_id(user_id);

        self.sequence = self.sequence.wrapping_add(1);

        let ulid_bytes = pack_ulid_bytes(timestamp, hash_result, self.sequence);
        let r = Self::bytes_to_string(ulid_bytes);
        proof {
            lemma_hex_of_len(ulid_bytes@);
            lemma_hex_of_all_hex(ulid_bytes@);
            lemma_shr_48_fits(timestamp);
            assert(r@ == hex_of(packed_bytes(timestamp, hash_result, self.spec_sequence())));
            assert(timestamp >= old(self).spec_last_timestamp());
            assert(self.spec_last_timestamp() == timestamp >> 48);
            assert(exists|t: u64, e: u64|
                {
                    &&& t >= old(self).spec_last_timestamp()
                    &&& self.spec_last_timestamp() == t >> 48
                    &&& r@ == hex_of(#[trigger] packed_bytes(t, e, self.spec_sequence()))
                });
        }
        r
    }
}

/// Relies on std's SystemTime::now: the milliseconds elapsed since the Unix
/// epoch, as the system clock reports them.  Nothing is assumed of the
/// value; a clock reading before the epoch counts as zero.
#[verifier::external_body]
fn now_unix_millis() -> u64 {
    match std::time::SystemTime::now().duration_since(std::time::UNIX_EPOCH) {
        Ok(elapsed) => elapsed.as_millis() as u64,
        Err(_) => 0,
    }
}

/// Relies on std's DefaultHasher: the SipHash word it yields for the user id.
/// The value is stable only within one build of std, so nothing is assumed of
/// it; it serves as entropy in the identifier.
#[verifier::external_body]
fn hash_of_user_id(user_id: &i32) -> u64 {
    let mut hasher = std::collections::hash_map::DefaultHasher::new();
    std::hash::Hash::hash(user_id, &mut hasher);
    std::hash::Hasher::finish(&hasher)
}

} // verus!
