//! Permission strings: nine characters, `rwx` or `-` in place of a letter,
//! for the owner, the group and all others.

use crate::error::PermError;
use crate::hdfs::bits::{Access, SubPerm};
use crate::text::chars_of;
use vstd::prelude::*;

verus! {

/// What the owner of an entry, its group and all others may do with it.
#[derive(Clone, Copy, Debug, PartialEq, Eq, Structural)]
pub struct Permission {
    pub owner: SubPerm,
    pub group: SubPerm,
    pub other: SubPerm,
}

/// A [`Permission`] as three sets of rights.
pub struct Rights {
    pub owner: Set<Access>,
    pub group: Set<Access>,
    pub other: Set<Access>,
}

impl View for Permission {
    type V = Rights;

    open spec fn view(&self) -> Rights {
        Rights { owner: self.owner@, group: self.group@, other: self.other@ }
    }
}

/// The letter that grants the right `a`.
pub open spec fn access_letter(a: Access) -> char {
    match a {
        Access::Read => 'r',
        Access::Write => 'w',
        Access::Exec => 'x',
    }
}

/// Where the letter of the right `a` stands in a group of three.
pub open spec fn access_index(a: Access) -> int {
    match a {
        Access::Read => 0,
        Access::Write => 1,
        Access::Exec => 2,
    }
}

/// The letter that may stand at position `i` of a permission string.
pub open spec fn letter_at(i: int) -> char {
    if i % 3 == 0 {
        'r'
    } else if i % 3 == 1 {
        'w'
    } else {
        'x'
    }
}

/// The grammar of a permission string: nine characters, each the letter of
/// its position or `-`.
pub open spec fn is_mode(s: Seq<char>) -> bool {
    &&& s.len() == 9
    &&& forall|i: int| 0 <= i < 9 ==> #[trigger] s[i] == letter_at(i) || s[i] == '-'
}

/// The rights that three tokens grant: reading where the first is `r`,
/// writing where the second is `w`, executing where the third is `x`. Any
/// other token, of whatever length, grants nothing.
pub open spec fn token_rights(r: Seq<char>, w: Seq<char>, x: Seq<char>) -> Set<Access> {
    Set::new(
        |a: Access|
            match a {
                Access::Read => r == seq!['r'],
                Access::Write => w == seq!['w'],
                Access::Exec => x == seq!['x'],
            },
    )
}

/// The rights that group `g` of the permission string `s` grants: 0 is the
/// owner's group of three characters, 1 the group's, 2 that of all others.
pub open spec fn group_rights(s: Seq<char>, g: int) -> Set<Access> {
    token_rights(
        s.subrange(3 * g, 3 * g + 1),
        s.subrange(3 * g + 1, 3 * g + 2),
        s.subrange(3 * g + 2, 3 * g + 3),
    )
}

/// The rights that the permission string `s` grants.
pub open spec fn mode_rights(s: Seq<char>) -> Rights {
    Rights { owner: group_rights(s, 0), group: group_rights(s, 1), other: group_rights(s, 2) }
}

/// Whether the token is the one character `letter`.
fn is_letter(token: &str, letter: char) -> (r: bool)
    ensures
        r == (token@ == seq![letter]),
{
    if token.unicode_len() == 1 {
        let c = token.get_char(0);
        proof {
            if c == letter {
                assert(token@ =~= seq![letter]);
            }
        }
        c == letter
    } else {
        false
    }
}

impl SubPerm {
    /// The rights that three tokens grant. A token that is not the expected
    /// letter grants nothing: decoding does not fail.
    pub fn from_tokens(r: &str, w: &str, x: &str) -> (p: SubPerm)
        ensures
            p@ == token_rights(r@, w@, x@),
    {
        let read = if is_letter(r, 'r') { SubPerm::read() } else { SubPerm::nil() };
        let write = if is_letter(w, 'w') { SubPerm::write() } else { SubPerm::nil() };
        let exec = if is_letter(x, 'x') { SubPerm::exec() } else { SubPerm::nil() };
        read.union(write).union(exec)
    }
}

impl Permission {
    /// Decodes a permission string. A string outside the grammar is
    /// refused, and the error carries it.
    pub fn parse(perm: &str) -> (r: Result<Permission, PermError>)
        ensures
            r is Ok <==> is_mode(perm@),
            r matches Ok(p) ==> p@ == mode_rights(perm@),
            r matches Err(e) ==> e.perm@ == perm@,
    {
        let chars = chars_of(perm);
        if !mode_shape(chars.as_slice()) {
            return Err(PermError::new(perm.to_owned()));
        }
        Ok(
            Permission {
                owner: decode_group(perm, 0),
                group: decode_group(perm, 1),
                other: decode_group(perm, 2),
            },
        )
    }
}

/// Whether `s` follows the grammar of a permission string.
pub fn mode_shape(s: &[char]) -> (r: bool)
    ensures
        r == is_mode(s@),
{
    if s.len() != 9 {
        return false;
    }
    let mut i: usize = 0;
    while i < 9
        invariant
            i <= 9,
            s@.len() == 9,
            forall|j: int| 0 <= j < i ==> #[trigger] s@[j] == letter_at(j) || s@[j] == '-',
        decreases 9 - i,
    {
        let letter = if i % 3 == 0 {
            'r'
        } else if i % 3 == 1 {
            'w'
        } else {
            'x'
        };
        if s[i] != letter && s[i] != '-' {
            return false;
        }
        i += 1;
    }
    true
}

/// The rights that group `g` of a permission string grants.
fn decode_group(perm: &str, g: usize) -> (p: SubPerm)
    requires
        perm@.len() == 9,
        g < 3,
    ensures
        p@ == group_rights(perm@, g as int),
{
    SubPerm::from_tokens(
        perm.substring_char(3 * g, 3 * g + 1),
        perm.substring_char(3 * g + 1, 3 * g + 2),
        perm.substring_char(3 * g + 2, 3 * g + 3),
    )
}

/// In a permission string every right is decoded from its own character
/// alone: group `g` grants the right `a` exactly where the character of `a`
/// in that group is the letter of `a`, whatever the other eight are.
pub proof fn lemma_rights_by_position(s: Seq<char>, g: int, a: Access)
    requires
        is_mode(s),
        0 <= g < 3,
    ensures
        group_rights(s, g).contains(a) <==> s[3 * g + access_index(a)] == access_letter(a),
        group_rights(s, g).contains(a) <==> s[3 * g + access_index(a)] != '-',
        letter_at(3 * g + access_index(a)) == access_letter(a),
{
    let i = 3 * g + access_index(a);
    assert(s.subrange(i, i + 1) =~= seq![s[i]]);
    assert(seq![access_letter(a)][0] == access_letter(a));
}

/// A string whose nine characters are all `-` grants nothing to anyone, and
/// `rwxrwxrwx` grants everything to everyone.
pub proof fn lemma_none_and_all(s: Seq<char>, g: int)
    requires
        is_mode(s),
        0 <= g < 3,
    ensures
        (forall|i: int| 0 <= i < 9 ==> s[i] == '-') ==> group_rights(s, g) == Set::<
            Access,
        >::empty(),
        (forall|i: int| 0 <= i < 9 ==> s[i] == letter_at(i)) ==> group_rights(s, g) == Set::<
            Access,
        >::full(),
{
    lemma_rights_by_position(s, g, Access::Read);
    lemma_rights_by_position(s, g, Access::Write);
    lemma_rights_by_position(s, g, Access::Exec);
}

/// What the grammar refuses: every string that is not nine characters long,
/// and every string with a character that is neither `-` nor the letter of
/// its position, such as a space, an upper-case letter, or a letter out of
/// place.
pub proof fn lemma_refused(s: Seq<char>, i: int)
    ensures
        s.len() != 9 ==> !is_mode(s),
        0 <= i < s.len() && s[i] != '-' && s[i] != letter_at(i) ==> !is_mode(s),
        0 <= i < s.len() && s[i] != '-' && s[i] != 'r' && s[i] != 'w' && s[i] != 'x' ==> !is_mode(
            s,
        ),
{
}

} // verus!
