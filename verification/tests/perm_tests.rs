use hdfs_mirror::hdfs::bits::{Access, SubPerm, ALL, EXEC, NIL, READ, WRITE};
use hdfs_mirror::hdfs::perm::Permission;

fn parts(p: &Permission) -> (u8, u8, u8) {
    (p.owner.bits(), p.group.bits(), p.other.bits())
}

#[test]
fn all_rights_for_everyone() {
    let p = Permission::parse("rwxrwxrwx").unwrap();
    assert_eq!(p.owner, SubPerm::all());
    assert_eq!(p.group, SubPerm::all());
    assert_eq!(p.other, SubPerm::all());
    assert_eq!(parts(&p), (7, 7, 7));
}

#[test]
fn no_right_for_anyone() {
    let p = Permission::parse("---------").unwrap();
    assert_eq!(p.owner, SubPerm::nil());
    assert_eq!(p.group, SubPerm::nil());
    assert_eq!(p.other, SubPerm::nil());
}

#[test]
fn mixed_string_decodes_by_position() {
    let p = Permission::parse("r-xrw---x").unwrap();
    assert_eq!(p.owner, SubPerm::read().union(SubPerm::exec()));
    assert_eq!(p.group, SubPerm::read().union(SubPerm::write()));
    assert_eq!(p.other, SubPerm::exec());
    assert_eq!(parts(&p), (5, 6, 1));
}

#[test]
fn every_single_letter_sets_its_own_bit_only() {
    let letters = ['r', 'w', 'x'];
    let bits = [READ, WRITE, EXEC];
    for pos in 0..9 {
        let mut s: Vec<char> = "---------".chars().collect();
        s[pos] = letters[pos % 3];
        let text: String = s.into_iter().collect();
        let p = Permission::parse(&text).unwrap();
        let got = [p.owner.bits(), p.group.bits(), p.other.bits()];
        for g in 0..3 {
            let want = if g == pos / 3 { bits[pos % 3] } else { NIL };
            assert_eq!(got[g], want, "{}", text);
        }
    }
}

#[test]
fn wrong_length_is_refused_with_the_string() {
    for bad in ["", "rwx", "rwxrwxrw", "rwxrwxrwxr", "drwxrwxrwx"] {
        let e = Permission::parse(bad).unwrap_err();
        assert_eq!(e.perm, bad);
    }
}

#[test]
fn foreign_characters_are_refused() {
    for bad in [" wxrwxrwx", "rwxrwxrw ", "RWXRWXRWX", "rwxrwxrwX", "rwxrwxrwt", "rw-rw-rw+"] {
        let e = Permission::parse(bad).unwrap_err();
        assert_eq!(e.perm, bad);
    }
}

#[test]
fn letters_out_of_place_are_refused() {
    for bad in ["wrxrwxrwx", "xxxxxxxxx", "rrrrrrrrr", "rwxrwxrww"] {
        assert!(Permission::parse(bad).is_err(), "{}", bad);
    }
}

#[test]
fn tokens_decode_without_failing() {
    assert_eq!(SubPerm::from_tokens("r", "w", "x").bits(), ALL);
    assert_eq!(SubPerm::from_tokens("-", "-", "-").bits(), NIL);
    assert_eq!(SubPerm::from_tokens("r", "-", "x").bits(), READ | EXEC);
    // the wrong case, the wrong letter and the wrong length give no right
    assert_eq!(SubPerm::from_tokens("R", "W", "X").bits(), NIL);
    assert_eq!(SubPerm::from_tokens("w", "r", "x").bits(), EXEC);
    assert_eq!(SubPerm::from_tokens("rr", "", "x ").bits(), NIL);
    assert_eq!(SubPerm::from_tokens("", "w", "").bits(), WRITE);
}

#[test]
fn bit_values_are_those_of_a_mode() {
    assert_eq!((NIL, EXEC, WRITE, READ, ALL), (0, 1, 2, 4, 7));
    assert_eq!(SubPerm::read().bits(), 4);
    assert_eq!(SubPerm::write().bits(), 2);
    assert_eq!(SubPerm::exec().bits(), 1);
    assert_eq!(SubPerm::only(Access::Write), SubPerm::write());
}

#[test]
fn from_bits_takes_three_bits_only() {
    for b in 0..=7u8 {
        assert_eq!(SubPerm::from_bits(b).unwrap().bits(), b);
    }
    assert!(SubPerm::from_bits(8).is_none());
    assert!(SubPerm::from_bits(255).is_none());
}

#[test]
fn union_intersection_and_containment() {
    let rw = SubPerm::read().union(SubPerm::write());
    let wx = SubPerm::write().union(SubPerm::exec());
    assert_eq!(rw.union(wx), SubPerm::all());
    assert_eq!(rw.intersection(wx), SubPerm::write());
    assert!(rw.contains(SubPerm::read()));
    assert!(!rw.contains(SubPerm::exec()));
    assert!(rw.contains(SubPerm::nil()));
    assert!(!rw.contains(SubPerm::all()));
    assert!(rw.grants(Access::Read) && rw.grants(Access::Write) && !rw.grants(Access::Exec));
    assert!(SubPerm::nil().is_empty() && !rw.is_empty());
    assert!(SubPerm::all().is_all() && !rw.is_all());
}
