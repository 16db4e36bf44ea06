use vstd::prelude::*;
use vstd::std_specs::cmp::PartialEqSpec;
use vstd::string::StringExecFns;

verus! {

/// The lowercase hexadecimal digit standing for a value below sixteen.
pub open spec fn hex_digit(n: u128) -> char {
    if n == 0 {
        '0'
    } else if n == 1 {
        '1'
    } else if n == 2 {
        '2'
    } else if n == 3 {
        '3'
    } else if n == 4 {
        '4'
    } else if n == 5 {
        '5'
    } else if n == 6 {
        '6'
    } else if n == 7 {
        '7'
    } else if n == 8 {
        '8'
    } else if n == 9 {
        '9'
    } else if n == 10 {
        'a'
    } else if n == 11 {
        'b'
    } else if n == 12 {
        'c'
    } else if n == 13 {
        'd'
    } else if n == 14 {
        'e'
    } else {
        'f'
    }
}

/// The four bits of `u` that the hexadecimal rendering shows at digit
/// position `i`, counting positions from the most significant end.
pub open spec fn nibble_of(u: u128, i: int) -> u128 {
    (u >> (((31 - i) * 4) as u128)) & 0xf
}

/// The canonical rendering of a 128-bit identifier: exactly 32 lowercase
/// hexadecimal characters, most significant digit first, no separators.
pub open spec fn simple_hex(u: u128) -> Seq<char> {
    Seq::new(32, |i: int| hex_digit(nibble_of(u, i)))
}

/// True of the sixteen characters a lowercase hexadecimal rendering may
/// contain.
pub open spec fn is_lower_hex_digit(c: char) -> bool {
    c == '0' || c == '1' || c == '2' || c == '3' || c == '4' || c == '5' || c == '6' || c == '7'
        || c == '8' || c == '9' || c == 'a' || c == 'b' || c == 'c' || c == 'd' || c == 'e'
        || c == 'f'
}

/// Law: whatever 128-bit value an identifier holds, its canonical
/// rendering is exactly 32 characters long and every character is a
/// lowercase hexadecimal digit.
pub proof fn lemma_simple_hex_shape(u: u128)
    ensures
        simple_hex(u).len() == 32,
        forall|i: int| 0 <= i < 32 ==> is_lower_hex_digit(#[trigger] simple_hex(u)[i]),
{
    assert forall|i: int| 0 <= i < 32 implies is_lower_hex_digit(simple_hex(u)[i]) by {
        let sh = ((31 - i) * 4) as u128;
        assert((u >> sh) & 0xf < 16) by (bit_vector);
    }
}

/// The one-character string slice holding the lowercase hexadecimal
/// digit for `n`.
fn hex_digit_str(n: u128) -> (r: &'static str)
    requires
        n < 16,
    ensures
        r@ == seq![hex_digit(n)],
{
    if n == 0 {
        proof {
            reveal_strlit("0");
            assert(("0")@ =~= seq![hex_digit(n)]);
        }
        "0"
    } else if n == 1 {
        proof {
            reveal_strlit("1");
            assert(("1")@ =~= seq![hex_digit(n)]);
        }
        "1"
    } else if n == 2 {
        proof {
            reveal_strlit("2");
            assert(("2")@ =~= seq![hex_digit(n)]);
        }
        "2"
    } else if n == 3 {
        proof {
            reveal_strlit("3");
            assert(("3")@ =~= seq![hex_digit(n)]);
        }
        "3"
    } else if n == 4 {
        proof {
            reveal_strlit("4");
            assert(("4")@ =~= seq![hex_digit(n)]);
        }
        "4"
    } else if n == 5 {
        proof {
            reveal_strlit("5");
            assert(("5")@ =~= seq![hex_digit(n)]);
        }
        "5"
    } else if n == 6 {
        proof {
            reveal_strlit("6");
            assert(("6")@ =~= seq![hex_digit(n)]);
        }
        "6"
    } else if n == 7 {
        proof {
            reveal_strlit("7");
            assert(("7")@ =~= seq![hex_digit(n)]);
        }
        "7"
    } else if n == 8 {
        proof {
            reveal_strlit("8");
            assert(("8")@ =~= seq![hex_digit(n)]);
        }
        "8"
    } else if n == 9 {
        proof {
            reveal_strlit("9");
            assert(("9")@ =~= seq![hex_digit(n)]);
        }
        "9"
    } else if n == 10 {
        proof {
            reveal_strlit("a");
            assert(("a")@ =~= seq![hex_digit(n)]);
        }
        "a"
    } else if n == 11 {
        proof {
            reveal_strlit("b");
            assert(("b")@ =~= seq![hex_digit(n)]);
        }
        "b"
    } else if n == 12 {
        proof {
            reveal_strlit("c");
            assert(("c")@ =~= seq![hex_digit(n)]);
        }
        "c"
    } else if n == 13 {
        proof {
            reveal_strlit("d");
            assert(("d")@ =~= seq![hex_digit(n)]);
        }
        "d"
    } else if n == 14 {
        proof {
            reveal_strlit("e");
            assert(("e")@ =~= seq![hex_digit(n)]);
        }
        "e"
    } else {
        proof {
            reveal_strlit("f");
            assert(("f")@ =~= seq![hex_digit(n)]);
        }
        "f"
    }
}

/// The two fixed marks every freshly generated identifier carries: the
/// version nibble reads four and the two variant bits read binary 10.
/// Every other bit of such an identifier is random.
pub open spec fn random_id_marks(u: u128) -> bool {
    (u >> 76) & 0xf == 4 && (u >> 62) & 0x3 == 2
}

/// Relies on uuid::Uuid::new_v4, read back through Uuid::as_u128: a
/// freshly drawn random 128-bit value. All that holds of every outcome
/// is the fixed version and variant bits that new_v4 masks in; nothing
/// else is promised, and two calls may well differ.
#[verifier::external_body]
fn fresh_id_value() -> (r: u128)
    ensures
        random_id_marks(r),
{
    uuid::Uuid::new_v4().as_u128()
}

/// The to-do entity: a 128-bit identifier fixed at construction and
/// user-supplied text. Identity is carried by the identifier alone.
#[derive(Debug)]
pub struct ToDo {
    id: u128,
    text: String,
}

impl ToDo {
    /// The 128-bit value underlying this entity's identifier.
    pub closed spec fn id_bits(&self) -> u128 {
        self.id
    }

    /// The stored text, as a sequence of characters.
    pub closed spec fn text_view(&self) -> Seq<char> {
        self.text@
    }

    /// Constructs an entity from a caller-supplied identifier and text.
    /// No validation is performed: keeping identifiers unique is the
    /// caller's (ultimately the storage backend's) responsibility.
    pub fn new(id: u128, text: String) -> (r: ToDo)
        ensures
            r.id_bits() == id,
            r.text_view() == text@,
    {
        ToDo { id, text }
    }

    /// Constructs an entity around a freshly generated random identifier.
    /// Only the creation (mutation) path uses this; the text is stored
    /// unchanged, and the identifier carries the fixed version and
    /// variant marks of a fresh draw.
    pub fn new_random_id(text: String) -> (r: ToDo)
        ensures
            r.text_view() == text@,
            random_id_marks(r.id_bits()),
    {
        let id: u128 = fresh_id_value();
        ToDo { id, text }
    }

    /// The canonical string form of the identifier: the underlying
    /// 128-bit value as 32 lowercase hexadecimal characters, with no
    /// separators.
    pub fn id(&self) -> (r: String)
        ensures
            r@ == simple_hex(self.id_bits()),
    {
        let u: u128 = self.id;
        let mut s = String::new();
        proof {
            assert(s@ =~= simple_hex(u).take(0));
        }
        let mut i: usize = 0;
        while i < 32
            invariant
                i <= 32,
                u == self.id_bits(),
                s@ == simple_hex(u).take(i as int),
            decreases 32 - i,
        {
            let sh: u128 = 4 * (31 - i as u128);
            let nib: u128 = (u >> sh) & 0xf;
            proof {
                assert((u >> sh) & 0xf < 16) by (bit_vector);
            }
            let d = hex_digit_str(nib);
            s.append(d);
            proof {
                assert(s@ =~= simple_hex(u).take(i as int + 1));
            }
            i += 1;
        }
        proof {
            assert(s@ =~= simple_hex(u));
        }
        s
    }

    /// A read-only view of the stored text.
    pub fn text(&self) -> (r: &String)
        ensures
            r@ == self.text_view(),
    {
        &self.text
    }
}

impl PartialEq for ToDo {
    /// Two entities are equal exactly when their identifiers match;
    /// the text plays no part in equality.
    fn eq(&self, other: &ToDo) -> (r: bool) {
        self.id == other.id
    }
}

impl vstd::std_specs::cmp::PartialEqSpecImpl for ToDo {
    open spec fn obeys_eq_spec() -> bool {
        true
    }

    open spec fn eq_spec(&self, other: &ToDo) -> bool {
        self.id_bits() == other.id_bits()
    }
}

/// Law: entity equality goes by the identifier alone. Two entities are
/// equal exactly when their 128-bit identifiers coincide, whatever their
/// texts hold.
pub proof fn lemma_identity_ignores_text(t1: &ToDo, t2: &ToDo)
    ensures
        t1.eq_spec(t2) <==> t1.id_bits() == t2.id_bits(),
{
}

/// A backend-defined error that can describe itself. Stands in for the
/// bound the repository's error type must satisfy: all the schema layer
/// ever does with such an error is read its description.
pub trait DescribeError {
    /// The description, as the schema layer may quote it.
    spec fn spec_description(&self) -> Seq<char>;

    /// A human-readable description of the failure.
    fn description(&self) -> (r: String)
        ensures
            r@ == self.spec_description(),
    ;
}

/// A ready-made describable error: its description is exactly the
/// message it was built from. A backend with no richer error type can
/// use it as its `E`; it also serves callers outside the crate, since
/// the contract of `DescribeError` can only be discharged here.
#[derive(Debug)]
pub struct MessageError {
    message: String,
}

impl MessageError {
    /// The message this error carries.
    pub closed spec fn message_view(&self) -> Seq<char> {
        self.message@
    }

    /// Wraps a message into a describable error.
    pub fn new(message: String) -> (r: MessageError)
        ensures
            r.message_view() == message@,
    {
        MessageError { message }
    }
}

impl DescribeError for MessageError {
    closed spec fn spec_description(&self) -> Seq<char> {
        self.message@
    }

    fn description(&self) -> (r: String)
        ensures
            r@ == self.spec_description(),
    {
        self.message.clone()
    }
}

/// The storage capability this crate depends on but does not implement:
/// list every known entity, or persist a new one, either possibly failing
/// with a backend-defined error. No order of `list` results is promised,
/// and `create` may normalize the entity it returns. Implementations must
/// be safe to share across concurrent callers.
pub trait Repository<E: DescribeError>: Sync + Send {
    /// What this backend promises of a `list` outcome. The default
    /// promises nothing; an implementation may refine it, and callers of
    /// `list` learn exactly this of whatever came back.
    open spec fn list_post(&self, r: Result<Vec<ToDo>, E>) -> bool {
        true
    }

    /// What this backend promises of a `create` outcome, given the
    /// entity it was handed. The default promises nothing; an
    /// implementation may refine it.
    open spec fn create_post(&self, attempted: ToDo, r: Result<ToDo, E>) -> bool {
        true
    }

    /// Every known entity, in backend-defined order.
    fn list(&self) -> (r: Result<Vec<ToDo>, E>)
        ensures
            self.list_post(r),
    ;

    /// Persists the given entity and returns the persisted value.
    fn create(&self, todo: ToDo) -> (r: Result<ToDo, E>)
        ensures
            self.create_post(todo, r),
    ;
}

} // verus!
