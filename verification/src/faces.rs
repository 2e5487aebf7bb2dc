//! The six-flag face mask of a cube and its two wire forms.
//!
//! The mask names the faces `{Right, Top, Back, Left, Bottom, Front}` in
//! that fixed canonical order. It serializes two ways:
//!
//! * human form: the ordered list of the names of the set faces, canonical
//!   order, only set faces listed; decoding accepts the six names in any
//!   order and multiplicity and rejects anything else, naming the stranger;
//! * compact form: one byte with bits 0 through 5 standing for the faces in
//!   canonical order; decoding rejects a byte with either high bit set.
use vstd::prelude::*;
use vstd::string::StringExecFns;

use crate::Error;

verus! {

/// A set of zero or more faces of a cube.
#[derive(Debug, Clone, Copy, PartialEq, Eq, Structural)]
pub struct Faces {
    pub right: bool,
    pub top: bool,
    pub back: bool,
    pub left: bool,
    pub bottom: bool,
    pub front: bool,
}

/// One where a flag is set, zero where it is clear.
pub open spec fn flag_bit(b: bool) -> u8 {
    if b {
        1
    } else {
        0
    }
}

/// The packed byte of a mask: bits 0 through 5 are the faces in canonical
/// order, bits 6 and 7 are always clear.
pub open spec fn spec_faces_bits(f: Faces) -> u8 {
    (flag_bit(f.right) + 2 * flag_bit(f.top) + 4 * flag_bit(f.back) + 8 * flag_bit(f.left) + 16
        * flag_bit(f.bottom) + 32 * flag_bit(f.front)) as u8
}

/// The mask a byte below 64 unpacks to.
pub open spec fn spec_faces_from_bits(bits: u8) -> Faces {
    Faces {
        right: bits % 2 == 1,
        top: (bits / 2) % 2 == 1,
        back: (bits / 4) % 2 == 1,
        left: (bits / 8) % 2 == 1,
        bottom: (bits / 16) % 2 == 1,
        front: (bits / 32) % 2 == 1,
    }
}

/// True of the six recognized face names.
pub open spec fn valid_face_name(s: Seq<char>) -> bool {
    ||| s == "Right"@
    ||| s == "Top"@
    ||| s == "Back"@
    ||| s == "Left"@
    ||| s == "Bottom"@
    ||| s == "Front"@
}

/// The human-form encoding of a mask: the names of its set faces, in
/// canonical order.
pub open spec fn spec_face_names(f: Faces) -> Seq<Seq<char>> {
    (if f.right {
        seq!["Right"@]
    } else {
        Seq::empty()
    }) + ((if f.top {
        seq!["Top"@]
    } else {
        Seq::empty()
    }) + ((if f.back {
        seq!["Back"@]
    } else {
        Seq::empty()
    }) + ((if f.left {
        seq!["Left"@]
    } else {
        Seq::empty()
    }) + ((if f.bottom {
        seq!["Bottom"@]
    } else {
        Seq::empty()
    }) + (if f.front {
        seq!["Front"@]
    } else {
        Seq::empty()
    })))))
}

/// A name list joined with comma separators: empty for no names, and a
/// separator before every name but the first.
pub open spec fn spec_join_names(parts: Seq<Seq<char>>) -> Seq<char>
    decreases parts.len(),
{
    if parts.len() == 0 {
        Seq::empty()
    } else if parts.len() == 1 {
        parts[0]
    } else {
        spec_join_names(parts.drop_last()) + ", "@ + parts.last()
    }
}

/// The rendering of a mask: the set faces in canonical order, comma
/// separated, wrapped in the type label.
pub open spec fn spec_faces_display(f: Faces) -> Seq<char> {
    "Faces("@ + spec_join_names(spec_face_names(f)) + ")"@
}

/// The views of a list of strings.
pub open spec fn seq_views(ss: Seq<String>) -> Seq<Seq<char>> {
    ss.map_values(|s: String| s@)
}

/// The mask a list of face names decodes to: defined when every name is
/// recognized, and then a pure function of the set of names — order and
/// multiplicity do not matter.
pub open spec fn spec_parse_faces(names: Seq<Seq<char>>) -> Option<Faces> {
    if forall|i: int| #![trigger names[i]] 0 <= i < names.len() ==> valid_face_name(names[i]) {
        Some(
            Faces {
                right: exists|i: int| #![trigger names[i]] 0 <= i < names.len() && names[i] == "Right"@,
                top: exists|i: int| #![trigger names[i]] 0 <= i < names.len() && names[i] == "Top"@,
                back: exists|i: int| #![trigger names[i]] 0 <= i < names.len() && names[i] == "Back"@,
                left: exists|i: int| #![trigger names[i]] 0 <= i < names.len() && names[i] == "Left"@,
                bottom: exists|i: int| #![trigger names[i]] 0 <= i < names.len() && names[i] == "Bottom"@,
                front: exists|i: int| #![trigger names[i]] 0 <= i < names.len() && names[i] == "Front"@,
            },
        )
    } else {
        None
    }
}

impl Faces {
    /// A mask from its six flags, in canonical order.
    pub fn new(right: bool, top: bool, back: bool, left: bool, bottom: bool, front: bool) -> (r:
        Self)
        ensures
            r == (Faces { right, top, back, left, bottom, front }),
    {
        Self { right, top, back, left, bottom, front }
    }

    /// The mask with no face set.
    pub fn empty() -> (r: Self)
        ensures
            r == (Faces {
                right: false,
                top: false,
                back: false,
                left: false,
                bottom: false,
                front: false,
            }),
    {
        Self { right: false, top: false, back: false, left: false, bottom: false, front: false }
    }

    /// The mask with all six faces set.
    pub fn all() -> (r: Self)
        ensures
            r == (Faces { right: true, top: true, back: true, left: true, bottom: true, front: true }),
    {
        Self { right: true, top: true, back: true, left: true, bottom: true, front: true }
    }

    /// True when every face of `other` is also set in `self`.
    pub fn contains(self, other: Self) -> (r: bool)
        ensures
            r <==> ((other.right ==> self.right) && (other.top ==> self.top) && (other.back
                ==> self.back) && (other.left ==> self.left) && (other.bottom ==> self.bottom) && (
            other.front ==> self.front)),
    {
        (!other.right || self.right) && (!other.top || self.top) && (!other.back || self.back) && (
        !other.left || self.left) && (!other.bottom || self.bottom) && (!other.front || self.front)
    }

    /// The compact wire byte of the mask; its two high bits are always
    /// clear.
    pub fn bits(self) -> (r: u8)
        ensures
            r == spec_faces_bits(self),
            r < 64,
    {
        let mut b: u8 = 0;
        if self.right {
            b = b + 1;
        }
        if self.top {
            b = b + 2;
        }
        if self.back {
            b = b + 4;
        }
        if self.left {
            b = b + 8;
        }
        if self.bottom {
            b = b + 16;
        }
        if self.front {
            b = b + 32;
        }
        b
    }

    /// Unpacks a compact wire byte. Returns `None` exactly when either of
    /// the two high bits is set.
    pub fn from_bits(bits: u8) -> (r: Option<Self>)
        ensures
            bits < 64 ==> r == Some(spec_faces_from_bits(bits)),
            bits >= 64 ==> r is None,
    {
        if bits >= 64 {
            return None;
        }
        Some(
            Self {
                right: bits % 2 == 1,
                top: (bits / 2) % 2 == 1,
                back: (bits / 4) % 2 == 1,
                left: (bits / 8) % 2 == 1,
                bottom: (bits / 16) % 2 == 1,
                front: (bits / 32) % 2 == 1,
            },
        )
    }

    /// Encodes the mask in human form: the names of the set faces, in
    /// canonical order. The empty mask encodes to the empty list; the full
    /// mask encodes to all six names.
    pub fn encode_human(&self) -> (r: Vec<String>)
        ensures
            seq_views(r@) == spec_face_names(*self),
    {
        let mut out: Vec<String> = Vec::new();
        if self.right {
            out.push("Right".to_owned());
        }
        if self.top {
            out.push("Top".to_owned());
        }
        if self.back {
            out.push("Back".to_owned());
        }
        if self.left {
            out.push("Left".to_owned());
        }
        if self.bottom {
            out.push("Bottom".to_owned());
        }
        if self.front {
            out.push("Front".to_owned());
        }
        proof {
            assert(seq_views(out@) =~= spec_face_names(*self));
        }
        out
    }

    /// Decodes a human-form list of face names. Names may come in any order
    /// and any multiplicity; the first unrecognized name is reported in the
    /// error.
    pub fn decode_human(names: &Vec<String>) -> (r: Result<Self, Error>)
        ensures
            match r {
                Ok(f) => spec_parse_faces(seq_views(names@)) == Some(f),
                Err(e) => {
                    &&& spec_parse_faces(seq_views(names@)) is None
                    &&& e matches Error::UnknownFaceName { name } && !valid_face_name(name@)
                        && exists|i: int|
                        #![trigger names@[i]]
                        0 <= i < names@.len() && names@[i]@ == name@ && (forall|j: int|
                            #![trigger names@[j]]
                            0 <= j < i ==> valid_face_name(names@[j]@))
                },
            },
    {
        proof {
            reveal_strlit("Right");
            reveal_strlit("Top");
            reveal_strlit("Back");
            reveal_strlit("Left");
            reveal_strlit("Bottom");
            reveal_strlit("Front");
        }
        let right_s: String = "Right".to_owned();
        let top_s: String = "Top".to_owned();
        let back_s: String = "Back".to_owned();
        let left_s: String = "Left".to_owned();
        let bottom_s: String = "Bottom".to_owned();
        let front_s: String = "Front".to_owned();
        let mut acc = Faces::empty();
        let n = names.len();
        let mut k: usize = 0;
        while k < n
            invariant
                n == names@.len(),
                0 <= k <= n,
                forall|i: int| #![trigger seq_views(names@)[i]]
                    0 <= i < k ==> valid_face_name(seq_views(names@)[i]),
                forall|i: int| #![trigger seq_views(names@)[i]]
                    0 <= i < names@.len() ==> seq_views(names@)[i] == names@[i]@,
                acc.right <==> exists|i: int|
                    #![trigger seq_views(names@)[i]]
                    0 <= i < k && seq_views(names@)[i] == "Right"@,
                acc.top <==> exists|i: int|
                    #![trigger seq_views(names@)[i]]
                    0 <= i < k && seq_views(names@)[i] == "Top"@,
                acc.back <==> exists|i: int|
                    #![trigger seq_views(names@)[i]]
                    0 <= i < k && seq_views(names@)[i] == "Back"@,
                acc.left <==> exists|i: int|
                    #![trigger seq_views(names@)[i]]
                    0 <= i < k && seq_views(names@)[i] == "Left"@,
                acc.bottom <==> exists|i: int|
                    #![trigger seq_views(names@)[i]]
                    0 <= i < k && seq_views(names@)[i] == "Bottom"@,
                acc.front <==> exists|i: int|
                    #![trigger seq_views(names@)[i]]
                    0 <= i < k && seq_views(names@)[i] == "Front"@,
                right_s@ == "Right"@,
                top_s@ == "Top"@,
                back_s@ == "Back"@,
                left_s@ == "Left"@,
                bottom_s@ == "Bottom"@,
                front_s@ == "Front"@,
            decreases n - k,
        {
            proof {
                lemma_face_names_distinct();
            }
            let name = &names[k];
            if *name == right_s {
                acc.right = true;
                proof {
                    assert(seq_views(names@)[k as int] == "Right"@);
                }
            } else if *name == top_s {
                acc.top = true;
                proof {
                    assert(seq_views(names@)[k as int] == "Top"@);
                }
            } else if *name == back_s {
                acc.back = true;
                proof {
                    assert(seq_views(names@)[k as int] == "Back"@);
                }
            } else if *name == left_s {
                acc.left = true;
                proof {
                    assert(seq_views(names@)[k as int] == "Left"@);
                }
            } else if *name == bottom_s {
                acc.bottom = true;
                proof {
                    assert(seq_views(names@)[k as int] == "Bottom"@);
                }
            } else if *name == front_s {
                acc.front = true;
                proof {
                    assert(seq_views(names@)[k as int] == "Front"@);
                }
            } else {
                proof {
                    assert(seq_views(names@)[k as int] == names@[k as int]@);
                    assert forall|j: int| 0 <= j < k implies valid_face_name(
                        #[trigger] names@[j]@,
                    ) by {
                        assert(seq_views(names@)[j] == names@[j]@);
                    }
                }
                return Err(Error::UnknownFaceName { name: name.clone() });
            }
            proof {
                assert(seq_views(names@)[k as int] == names@[k as int]@);
            }
            k = k + 1;
        }
        Ok(acc)
    }

    /// Renders the mask for debugging: the set faces in canonical order,
    /// comma separated, wrapped in the type label.
    /// Renders the mask for debugging: the set faces in canonical order,
    /// comma separated, wrapped in the type label.
    pub fn to_display_string(&self) -> (r: String)
        ensures
            r@ == spec_faces_display(*self),
    {
        let parts = self.encode_human();
        let ghost views = seq_views(parts@);
        let mut out: String = "Faces(".to_owned();
        let n = parts.len();
        let mut k: usize = 0;
        proof {
            assert(views.take(0) =~= Seq::<Seq<char>>::empty());
        }
        while k < n
            invariant
                n == parts@.len(),
                0 <= k <= n,
                views == seq_views(parts@),
                out@ == "Faces("@ + spec_join_names(views.take(k as int)),
            decreases n - k,
        {
            proof {
                assert(views[k as int] == parts@[k as int]@);
            }
            if k > 0 {
                out.append(", ");
            }
            out.append(parts[k].as_str());
            proof {
                let prev = views.take(k as int);
                let cur = views.take(k + 1);
                assert(cur.drop_last() =~= prev);
                assert(cur.last() == views[k as int]);
                if k == 0 {
                    assert(spec_join_names(cur) == views[0]);
                    assert(out@ =~= "Faces("@ + spec_join_names(cur));
                } else {
                    assert(spec_join_names(cur) == spec_join_names(prev) + ", "@
                        + views[k as int]);
                    assert(out@ =~= "Faces("@ + spec_join_names(cur));
                }
            }
            k = k + 1;
        }
        out.append(")");
        proof {
            assert(views.take(n as int) =~= views);
            assert(out@ =~= spec_faces_display(*self));
        }
        out
    }
}

/// The six face names are pairwise distinct strings.
pub proof fn lemma_face_names_distinct()
    ensures
        "Right"@ != "Top"@ && "Right"@ != "Back"@ && "Right"@ != "Left"@ && "Right"@ != "Bottom"@
            && "Right"@ != "Front"@,
        "Top"@ != "Back"@ && "Top"@ != "Left"@ && "Top"@ != "Bottom"@ && "Top"@ != "Front"@,
        "Back"@ != "Left"@ && "Back"@ != "Bottom"@ && "Back"@ != "Front"@,
        "Left"@ != "Bottom"@ && "Left"@ != "Front"@,
        "Bottom"@ != "Front"@,
{
    reveal_strlit("Right");
    reveal_strlit("Top");
    reveal_strlit("Back");
    reveal_strlit("Left");
    reveal_strlit("Bottom");
    reveal_strlit("Front");
    assert("Right"@.len() == 5 && "Top"@.len() == 3 && "Back"@.len() == 4 && "Left"@.len() == 4
        && "Bottom"@.len() == 6 && "Front"@.len() == 5);
    assert("Right"@[0] == 'R' && "Front"@[0] == 'F' && "Back"@[0] == 'B' && "Left"@[0] == 'L');
}

/// Unpacking the packed byte of any mask gives the mask back.
pub proof fn lemma_faces_bits_round_trip(f: Faces)
    ensures
        spec_faces_from_bits(spec_faces_bits(f)) == f,
{
}

/// Packing the mask a valid byte unpacks to gives the byte back: decoding
/// the compact form reproduces the byte for every byte with its two high
/// bits clear.
pub proof fn lemma_faces_byte_round_trip(bits: u8)
    requires
        bits < 64,
    ensures
        spec_faces_bits(spec_faces_from_bits(bits)) == bits,
{
}

/// Decoding the human-form encoding of any mask reproduces the mask.
#[verifier::rlimit(100)]
pub proof fn lemma_faces_human_round_trip(f: Faces)
    ensures
        spec_parse_faces(spec_face_names(f)) == Some(f),
{
    lemma_face_names_distinct();
    let names = spec_face_names(f);
    assert(names.len() == flag_bit(f.right) + flag_bit(f.top) + flag_bit(f.back) + flag_bit(f.left)
        + flag_bit(f.bottom) + flag_bit(f.front));
    assert(forall|i: int| #![trigger names[i]] 0 <= i < names.len() ==> valid_face_name(names[i]));
    assert(forall|i: int|
        #![trigger names[i]]
        0 <= i < names.len() ==> {
            ||| (names[i] == "Right"@ && f.right)
            ||| (names[i] == "Top"@ && f.top)
            ||| (names[i] == "Back"@ && f.back)
            ||| (names[i] == "Left"@ && f.left)
            ||| (names[i] == "Bottom"@ && f.bottom)
            ||| (names[i] == "Front"@ && f.front)
        });
    if f.right {
        assert(names[0] == "Right"@);
    }
    if f.top {
        let j = flag_bit(f.right) as int;
        assert(names[j] == "Top"@);
    }
    if f.back {
        let j = flag_bit(f.right) + flag_bit(f.top);
        assert(names[j as int] == "Back"@);
    }
    if f.left {
        let j = flag_bit(f.right) + flag_bit(f.top) + flag_bit(f.back);
        assert(names[j as int] == "Left"@);
    }
    if f.bottom {
        let j = flag_bit(f.right) + flag_bit(f.top) + flag_bit(f.back) + flag_bit(f.left);
        assert(names[j as int] == "Bottom"@);
    }
    if f.front {
        let j = flag_bit(f.right) + flag_bit(f.top) + flag_bit(f.back) + flag_bit(f.left)
            + flag_bit(f.bottom);
        assert(names[j as int] == "Front"@);
    }
    assert(f.right == (exists|i: int|
        #![trigger names[i]]
        0 <= i < names.len() && names[i] == "Right"@));
    assert(f.top == (exists|i: int| #![trigger names[i]] 0 <= i < names.len() && names[i] == "Top"@));
    assert(f.back == (exists|i: int|
        #![trigger names[i]]
        0 <= i < names.len() && names[i] == "Back"@));
    assert(f.left == (exists|i: int|
        #![trigger names[i]]
        0 <= i < names.len() && names[i] == "Left"@));
    assert(f.bottom == (exists|i: int|
        #![trigger names[i]]
        0 <= i < names.len() && names[i] == "Bottom"@));
    assert(f.front == (exists|i: int|
        #![trigger names[i]]
        0 <= i < names.len() && names[i] == "Front"@));
}

} // verus!
