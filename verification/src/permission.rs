//! The capability vocabulary: named bit flags over a 64-bit mask, the algebra
//! on masks, and the registry that lists every declared flag.

use vstd::prelude::*;

verus! {

pub const NONE: u64 = 0x0;

pub const READ_ARTICLE: u64 = 0x1;

pub const WRITE_ARTICLE: u64 = 0x2;

pub const READ_WRITE_ARTICLE: u64 = 0x3;

pub const READ_COMMENT: u64 = 0x4;

pub const WRITE_COMMENT: u64 = 0x8;

pub const READ_WRITE_COMMENT: u64 = 0xc;

pub const READ_USER: u64 = 0x10;

pub const WRITE_USER: u64 = 0x20;

pub const READ_WRITE_USER: u64 = 0x30;

pub const READ_SYSTEM: u64 = 0x40;

pub const WRITE_SYSTEM: u64 = 0x80;

pub const READ_WRITE_SYSTEM: u64 = 0xc0;

pub const READ_FILE: u64 = 0x100;

pub const WRITE_FILE: u64 = 0x200;

pub const READ_WRITE_FILE: u64 = 0x300;

pub const READ_TAG: u64 = 0x400;

pub const WRITE_TAG: u64 = 0x800;

pub const READ_WRITE_TAG: u64 = 0xc00;

pub const READ_CATEGORY: u64 = 0x1000;

pub const WRITE_CATEGORY: u64 = 0x2000;

pub const READ_WRITE_CATEGORY: u64 = 0x3000;

pub const READ_MESSAGE: u64 = 0x4000;

pub const WRITE_MESSAGE: u64 = 0x8000;

pub const READ_WRITE_MESSAGE: u64 = 0xc000;

pub const READ: u64 = 0x5555;

pub const ALL: u64 = 0xffff_ffff_ffff_ffff;

/// How many bits of `bits` are set.
pub open spec fn popcount(bits: u64) -> nat
    decreases bits,
{
    if bits == 0 {
        0
    } else {
        (bits % 2) as nat + popcount(bits / 2)
    }
}

/// Whether `bits` names a single capability: exactly one bit is set.
pub open spec fn is_atomic(bits: u64) -> bool {
    popcount(bits) == 1
}

/// Whether every bit of `flag` is set in `mask`.
pub open spec fn has_all(mask: u64, flag: u64) -> bool {
    mask & flag == flag
}

/// Whether `mask` and `flag` share a bit.
pub open spec fn shares_bit(mask: u64, flag: u64) -> bool {
    mask & flag != 0
}

/// How many bits of `bits` are set.
pub fn count_ones(bits: u64) -> (count: u32)
    ensures
        count == popcount(bits),
        count <= 64,
{
    let mut rest: u64 = bits;
    let mut count: u32 = 0;
    let mut width: u32 = 64;
    while rest != 0
        invariant
            count + popcount(rest) == popcount(bits),
            count + width <= 64,
            width < 64 ==> rest < pow2_bound(width),
        decreases rest,
    {
        proof {
            lemma_bound_halves(rest, width);
        }
        if rest % 2 == 1 {
            count = count + 1;
        }
        rest = rest / 2;
        width = width - 1;
    }
    count
}

/// Two to the power `width`, for widths below 64.
pub open spec fn pow2_bound(width: u32) -> nat
    decreases width,
{
    if width == 0 {
        1
    } else {
        2 * pow2_bound((width - 1) as u32)
    }
}

proof fn lemma_pow2_64()
    ensures
        pow2_bound(64) == 0x1_0000_0000_0000_0000,
{
    reveal_with_fuel(pow2_bound, 65);
}

/// A nonzero value below two to the `width` has a positive width, and its
/// half lies below two to the `width - 1`.
proof fn lemma_bound_halves(rest: u64, width: u32)
    requires
        rest != 0,
        width <= 64,
        width < 64 ==> rest < pow2_bound(width),
    ensures
        width > 0,
        rest / 2 < pow2_bound((width - 1) as u32),
{
    lemma_pow2_64();
}

/// A set of capabilities, one bit per capability.
#[derive(Clone, Copy, Debug, PartialEq, Eq, Hash, Structural)]
pub struct Permission {
    pub bits: u64,
}

impl Permission {
    /// The mask with exactly the given bits. Every value is a mask: bits that
    /// no declared flag uses are kept as they are.
    pub fn from_bits(bits: u64) -> (mask: Permission)
        ensures
            mask.bits == bits,
    {
        Permission { bits }
    }

    /// The bits of this mask.
    pub fn bits(&self) -> (bits: u64)
        ensures
            bits == self.bits,
    {
        self.bits
    }

    /// Whether this mask holds every bit of `flag`.
    pub fn has(&self, flag: Permission) -> (held: bool)
        ensures
            held == has_all(self.bits, flag.bits),
    {
        self.bits & flag.bits == flag.bits
    }

    /// Whether this mask holds at least one bit of `flag`.
    pub fn intersects(&self, flag: Permission) -> (shared: bool)
        ensures
            shared == shares_bit(self.bits, flag.bits),
    {
        self.bits & flag.bits != 0
    }

    /// Whether this mask is a single capability.
    pub fn is_atomic(&self) -> (atomic: bool)
        ensures
            atomic == is_atomic(self.bits),
    {
        count_ones(self.bits) == 1
    }
}

/// One declared flag as the registry lists it.
pub struct FlagDecl {
    pub name: Seq<char>,
    pub description: Seq<char>,
    pub bits: u64,
}

/// The declaration of a flag.
pub open spec fn decl(name: Seq<char>, description: Seq<char>, bits: u64) -> FlagDecl {
    FlagDecl { name, description, bits }
}

/// Every declared flag, in the order of declaration. `NONE` is no flag and
/// is not listed.
pub open spec fn declared_flags() -> Seq<FlagDecl> {
    seq![
        decl("READ_ARTICLE"@, "读取文章权限"@, READ_ARTICLE),
        decl("WRITE_ARTICLE"@, "写入文章权限"@, WRITE_ARTICLE),
        decl("READ_WRITE_ARTICLE"@, "读写文章权限"@, READ_WRITE_ARTICLE),
        decl("READ_COMMENT"@, "读取评论权限"@, READ_COMMENT),
        decl("WRITE_COMMENT"@, "写入评论权限"@, WRITE_COMMENT),
        decl("READ_WRITE_COMMENT"@, "读写评论权限"@, READ_WRITE_COMMENT),
        decl("READ_USER"@, "读取用户权限"@, READ_USER),
        decl("WRITE_USER"@, "写入用户权限"@, WRITE_USER),
        decl("READ_WRITE_USER"@, "读写用户权限"@, READ_WRITE_USER),
        decl("READ_SYSTEM"@, "读取系统权限"@, READ_SYSTEM),
        decl("WRITE_SYSTEM"@, "写入系统权限"@, WRITE_SYSTEM),
        decl("READ_WRITE_SYSTEM"@, "读写系统权限"@, READ_WRITE_SYSTEM),
        decl("READ_FILE"@, "读取文件权限"@, READ_FILE),
        decl("WRITE_FILE"@, "写入文件权限"@, WRITE_FILE),
        decl("READ_WRITE_FILE"@, "读写文件权限"@, READ_WRITE_FILE),
        decl("READ_TAG"@, "读取标签权限"@, READ_TAG),
        decl("WRITE_TAG"@, "写入标签权限"@, WRITE_TAG),
        decl("READ_WRITE_TAG"@, "读写标签权限"@, READ_WRITE_TAG),
        decl("READ_CATEGORY"@, "读取分类权限"@, READ_CATEGORY),
        decl("WRITE_CATEGORY"@, "写入分类权限"@, WRITE_CATEGORY),
        decl("READ_WRITE_CATEGORY"@, "读写分类权限"@, READ_WRITE_CATEGORY),
        decl("READ_MESSAGE"@, "读取消息权限"@, READ_MESSAGE),
        decl("WRITE_MESSAGE"@, "写入消息权限"@, WRITE_MESSAGE),
        decl("READ_WRITE_MESSAGE"@, "读写消息权限"@, READ_WRITE_MESSAGE),
        decl("READ"@, "所有读取权限"@, READ),
        decl("ALL"@, "所有权限"@, ALL),
    ]
}

/// One row of the registry.
#[derive(Clone, Copy, Debug)]
pub struct PermissionEntry {
    pub name: &'static str,
    pub description: &'static str,
    pub flag: Permission,
}

impl View for PermissionEntry {
    type V = FlagDecl;

    open spec fn view(&self) -> FlagDecl {
        FlagDecl { name: self.name@, description: self.description@, bits: self.flag.bits }
    }
}

fn row(name: &'static str, description: &'static str, bits: u64) -> (entry: PermissionEntry)
    ensures
        entry@ == decl(name@, description@, bits),
{
    PermissionEntry { name, description, flag: Permission { bits } }
}

/// The registry: every declared flag with its name and description.
pub fn permission_list() -> (list: Vec<PermissionEntry>)
    ensures
        list@.map_values(|e: PermissionEntry| e@) == declared_flags(),
{
    let mut list: Vec<PermissionEntry> = Vec::new();
    list.push(row("READ_ARTICLE", "读取文章权限", READ_ARTICLE));
    list.push(row("WRITE_ARTICLE", "写入文章权限", WRITE_ARTICLE));
    list.push(row("READ_WRITE_ARTICLE", "读写文章权限", READ_WRITE_ARTICLE));
    list.push(row("READ_COMMENT", "读取评论权限", READ_COMMENT));
    list.push(row("WRITE_COMMENT", "写入评论权限", WRITE_COMMENT));
    list.push(row("READ_WRITE_COMMENT", "读写评论权限", READ_WRITE_COMMENT));
    list.push(row("READ_USER", "读取用户权限", READ_USER));
    list.push(row("WRITE_USER", "写入用户权限", WRITE_USER));
    list.push(row("READ_WRITE_USER", "读写用户权限", READ_WRITE_USER));
    list.push(row("READ_SYSTEM", "读取系统权限", READ_SYSTEM));
    list.push(row("WRITE_SYSTEM", "写入系统权限", WRITE_SYSTEM));
    list.push(row("READ_WRITE_SYSTEM", "读写系统权限", READ_WRITE_SYSTEM));
    list.push(row("READ_FILE", "读取文件权限", READ_FILE));
    list.push(row("WRITE_FILE", "写入文件权限", WRITE_FILE));
    list.push(row("READ_WRITE_FILE", "读写文件权限", READ_WRITE_FILE));
    list.push(row("READ_TAG", "读取标签权限", READ_TAG));
    list.push(row("WRITE_TAG", "写入标签权限", WRITE_TAG));
    list.push(row("READ_WRITE_TAG", "读写标签权限", READ_WRITE_TAG));
    list.push(row("READ_CATEGORY", "读取分类权限", READ_CATEGORY));
    list.push(row("WRITE_CATEGORY", "写入分类权限", WRITE_CATEGORY));
    list.push(row("READ_WRITE_CATEGORY", "读写分类权限", READ_WRITE_CATEGORY));
    list.push(row("READ_MESSAGE", "读取消息权限", READ_MESSAGE));
    list.push(row("WRITE_MESSAGE", "写入消息权限", WRITE_MESSAGE));
    list.push(row("READ_WRITE_MESSAGE", "读写消息权限", READ_WRITE_MESSAGE));
    list.push(row("READ", "所有读取权限", READ));
    list.push(row("ALL", "所有权限", ALL));
    assert(list@.map_values(|e: PermissionEntry| e@) =~= declared_flags());
    list
}

/// The name of `decl` where it is a single capability that `mask` holds.
pub open spec fn atomic_name_in(mask: u64, decl: FlagDecl) -> Option<Seq<char>> {
    if is_atomic(decl.bits) && has_all(mask, decl.bits) {
        Some(decl.name)
    } else {
        None
    }
}

/// The names of the single capabilities that `mask` holds, in the order of
/// declaration. Unions of several bits are never named.
pub open spec fn atomic_names_of(mask: u64) -> Seq<Seq<char>> {
    declared_flags().filter_map(|decl: FlagDecl| atomic_name_in(mask, decl))
}

/// The declared flags that are single capabilities, in the order of
/// declaration.
pub open spec fn atomic_flags() -> Seq<FlagDecl> {
    declared_flags().filter(|decl: FlagDecl| is_atomic(decl.bits))
}

/// The bits of the first declared flag called `name`, if there is one.
pub open spec fn bits_by_name(flags: Seq<FlagDecl>, name: Seq<char>) -> Option<u64>
    decreases flags.len(),
{
    if flags.len() == 0 {
        None
    } else if flags[0].name == name {
        Some(flags[0].bits)
    } else {
        bits_by_name(flags.drop_first(), name)
    }
}

impl Permission {
    /// The names of the single capabilities in this mask.
    pub fn atomic_names(&self) -> (names: Vec<String>)
        ensures
            names@.map_values(|n: String| n@) == atomic_names_of(self.bits),
    {
        let list = permission_list();
        let ghost pick = |decl: FlagDecl| atomic_name_in(self.bits, decl);
        let ghost view = |n: String| n@;
        let mut names: Vec<String> = Vec::new();
        let mut i: usize = 0;
        assert(declared_flags().take(0) =~= Seq::empty());
        assert(names@.map_values(view) =~= Seq::empty());
        while i < list.len()
            invariant
                i <= list.len(),
                list@.map_values(|e: PermissionEntry| e@) == declared_flags(),
                pick == |decl: FlagDecl| atomic_name_in(self.bits, decl),
                view == |n: String| n@,
                names@.map_values(view) == declared_flags().take(i as int).filter_map(pick),
            decreases list.len() - i,
        {
            let entry = &list[i];
            proof {
                assert(list@.map_values(|e: PermissionEntry| e@)[i as int] == entry@);
                declared_flags().lemma_filter_map_take_succ(pick, i as int);
            }
            if count_ones(entry.flag.bits) == 1 && self.bits & entry.flag.bits == entry.flag.bits {
                let ghost before = names@;
                names.push(entry.name.to_owned());
                assert(names@.map_values(view) =~= before.map_values(view) + seq![entry.name@]);
            }
            i += 1;
        }
        assert(declared_flags().take(i as int) =~= declared_flags());
        names
    }

    /// The flag that the registry lists under `name`.
    pub fn from_name(name: &str) -> (flag: Option<Permission>)
        ensures
            flag is Some <==> bits_by_name(declared_flags(), name@) is Some,
            flag is Some ==> flag->0.bits == bits_by_name(declared_flags(), name@)->0,
    {
        let list = permission_list();
        let mut i: usize = 0;
        assert(declared_flags().skip(0) =~= declared_flags());
        while i < list.len()
            invariant
                i <= list.len(),
                list@.map_values(|e: PermissionEntry| e@) == declared_flags(),
                bits_by_name(declared_flags(), name@) == bits_by_name(
                    declared_flags().skip(i as int),
                    name@,
                ),
            decreases list.len() - i,
        {
            let entry = &list[i];
            proof {
                let rest = declared_flags().skip(i as int);
                assert(list@.map_values(|e: PermissionEntry| e@)[i as int] == entry@);
                assert(rest[0] == entry@);
                assert(rest.drop_first() =~= declared_flags().skip(i + 1));
            }
            if crate::text::str_eq(entry.name, name) {
                return Some(entry.flag);
            }
            i += 1;
        }
        None
    }
}

/// The registry without the unions: the rows of the single capabilities.
pub fn atomic_permission_list() -> (list: Vec<PermissionEntry>)
    ensures
        list@.map_values(|e: PermissionEntry| e@) == atomic_flags(),
{
    let all = permission_list();
    let ghost keep = |decl: FlagDecl| is_atomic(decl.bits);
    let ghost view = |e: PermissionEntry| e@;
    let mut list: Vec<PermissionEntry> = Vec::new();
    let mut i: usize = 0;
    proof {
        reveal(Seq::filter);
        assert(declared_flags().take(0) =~= Seq::empty());
        assert(list@.map_values(view) =~= Seq::empty());
    }
    while i < all.len()
        invariant
            i <= all.len(),
            all@.map_values(view) == declared_flags(),
            keep == |decl: FlagDecl| is_atomic(decl.bits),
            view == |e: PermissionEntry| e@,
            list@.map_values(view) == declared_flags().take(i as int).filter(keep),
        decreases all.len() - i,
    {
        let entry = all[i];
        proof {
            reveal(Seq::filter);
            assert(all@.map_values(view)[i as int] == entry@);
            let next = declared_flags().take(i + 1);
            assert(next.drop_last() =~= declared_flags().take(i as int));
            assert(next.last() == entry@);
        }
        if count_ones(entry.flag.bits) == 1 {
            let ghost before = list@;
            list.push(entry);
            assert(list@.map_values(view) =~= before.map_values(view).push(entry@));
        }
        i += 1;
    }
    assert(declared_flags().take(i as int) =~= declared_flags());
    list
}

/// A value with no bit set is zero.
proof fn lemma_popcount_zero(bits: u64)
    ensures
        popcount(bits) == 0 <==> bits == 0,
    decreases bits,
{
    if bits != 0 {
        lemma_popcount_zero(bits / 2);
    }
}

/// A single capability is a power of two: clearing its lowest set bit
/// leaves nothing.
proof fn lemma_atomic_is_power_of_two(bits: u64)
    requires
        is_atomic(bits),
    ensures
        bits != 0,
        bits & ((bits - 1) as u64) == 0,
    decreases bits,
{
    let half: u64 = bits / 2;
    if bits % 2 == 1 {
        lemma_popcount_zero(half);
        assert(bits == 1);
        assert(1u64 & ((1u64 - 1) as u64) == 0) by (bit_vector);
    } else {
        lemma_atomic_is_power_of_two(half);
        let below: u64 = (half - 1) as u64;
        assert(bits & ((bits - 1) as u64) == 0) by (bit_vector)
            requires
                half != 0,
                half & below == 0,
                below == (half - 1) as u64,
                bits == 2 * half,
                half == bits / 2,
        ;
    }
}

/// Sharing a bit does not depend on the order of the two masks; and where
/// the required flag is a single capability, a mask shares a bit with it
/// exactly when the mask holds all of it.
pub proof fn lemma_intersects_and_has(mask: u64, required: u64)
    ensures
        shares_bit(mask, required) == shares_bit(required, mask),
        shares_bit(mask, required) == (mask & required != 0),
        has_all(mask, required) == (mask & required == required),
        is_atomic(required) ==> shares_bit(mask, required) == has_all(mask, required),
{
    assert(mask & required == required & mask) by (bit_vector);
    if is_atomic(required) {
        lemma_atomic_is_power_of_two(required);
        let below: u64 = (required - 1) as u64;
        assert((mask & required != 0) == (mask & required == required)) by (bit_vector)
            requires
                required != 0,
                required & below == 0,
                below == (required - 1) as u64,
        ;
    }
}

/// The names of the declared single capabilities, in the order of
/// declaration.
pub open spec fn declared_atomic_names() -> Seq<Seq<char>> {
    seq![
        "READ_ARTICLE"@,
        "WRITE_ARTICLE"@,
        "READ_COMMENT"@,
        "WRITE_COMMENT"@,
        "READ_USER"@,
        "WRITE_USER"@,
        "READ_SYSTEM"@,
        "WRITE_SYSTEM"@,
        "READ_FILE"@,
        "WRITE_FILE"@,
        "READ_TAG"@,
        "WRITE_TAG"@,
        "READ_CATEGORY"@,
        "WRITE_CATEGORY"@,
        "READ_MESSAGE"@,
        "WRITE_MESSAGE"@,
    ]
}

/// The bits of all declared single capabilities together.
pub open spec fn atomic_union() -> u64 {
    READ_ARTICLE | WRITE_ARTICLE | READ_COMMENT | WRITE_COMMENT | READ_USER | WRITE_USER
        | READ_SYSTEM | WRITE_SYSTEM | READ_FILE | WRITE_FILE | READ_TAG | WRITE_TAG
        | READ_CATEGORY | WRITE_CATEGORY | READ_MESSAGE | WRITE_MESSAGE
}

/// How many bits each flag of a single resource sets.
proof fn lemma_popcount_of_resource_flags()
    ensures
        popcount(READ_ARTICLE) == 1,
        popcount(WRITE_ARTICLE) == 1,
        popcount(READ_WRITE_ARTICLE) == 2,
        popcount(READ_COMMENT) == 1,
        popcount(WRITE_COMMENT) == 1,
        popcount(READ_WRITE_COMMENT) == 2,
        popcount(READ_USER) == 1,
        popcount(WRITE_USER) == 1,
        popcount(READ_WRITE_USER) == 2,
        popcount(READ_SYSTEM) == 1,
        popcount(WRITE_SYSTEM) == 1,
        popcount(READ_WRITE_SYSTEM) == 2,
        popcount(READ_FILE) == 1,
        popcount(WRITE_FILE) == 1,
        popcount(READ_WRITE_FILE) == 2,
        popcount(READ_TAG) == 1,
        popcount(WRITE_TAG) == 1,
        popcount(READ_WRITE_TAG) == 2,
        popcount(READ_CATEGORY) == 1,
        popcount(WRITE_CATEGORY) == 1,
        popcount(READ_WRITE_CATEGORY) == 2,
        popcount(READ_MESSAGE) == 1,
        popcount(WRITE_MESSAGE) == 1,
        popcount(READ_WRITE_MESSAGE) == 2,
{
    reveal_with_fuel(popcount, 18);
}

/// The two unions over all resources are no single capabilities.
proof fn lemma_wide_flags_are_unions()
    ensures
        !is_atomic(READ),
        !is_atomic(ALL),
{
    lemma_popcount_zero(READ / 2);
    lemma_popcount_zero(ALL / 2);
}

/// The sixteen low bits count sixteen.
proof fn lemma_popcount_of_low_sixteen()
    ensures
        popcount(0xffff) == 16,
{
    reveal_with_fuel(popcount, 18);
}

/// Which rows of the registry are single capabilities: the read and the
/// write flag of each of the eight resources, and none of the unions.
proof fn lemma_declared_atomicity()
    ensures
        declared_flags().len() == 26,
        forall|i: int|
            0 <= i < 26 ==> is_atomic(#[trigger] declared_flags()[i].bits) == (i < 24 && i % 3
                != 2),
{
    lemma_popcount_of_resource_flags();
    lemma_wide_flags_are_unions();
}

/// How many of the first `i` rows of the registry are single capabilities.
spec fn atomic_rows_before(i: int) -> int {
    if i <= 24 {
        i - i / 3
    } else {
        16
    }
}

/// The single capabilities among the first `i` rows that the full mask
/// holds are the first declared atomic names.
proof fn lemma_atomic_names_of_all_prefix(i: int)
    requires
        0 <= i <= 26,
    ensures
        declared_flags().take(i).filter_map(|decl: FlagDecl| atomic_name_in(ALL, decl))
            == declared_atomic_names().take(atomic_rows_before(i)),
    decreases i,
{
    let pick = |decl: FlagDecl| atomic_name_in(ALL, decl);
    if i == 0 {
        assert(declared_flags().take(0) =~= Seq::empty());
        assert(declared_atomic_names().take(0) =~= Seq::empty());
    } else {
        lemma_atomic_names_of_all_prefix(i - 1);
        lemma_declared_atomicity();
        declared_flags().lemma_filter_map_take_succ(pick, i - 1);
        let decl = declared_flags()[i - 1];
        let bits = decl.bits;
        assert(ALL & bits == bits) by (bit_vector)
            requires
                ALL == 0xffff_ffff_ffff_ffffu64,
        ;
        if is_atomic(bits) {
            let k = atomic_rows_before(i - 1);
            assert(declared_atomic_names()[k] == decl.name);
            assert(declared_atomic_names().take(k + 1) =~= declared_atomic_names().take(k)
                + seq![decl.name]);
        } else {
            assert(declared_atomic_names().take(atomic_rows_before(i - 1))
                =~= declared_atomic_names().take(atomic_rows_before(i)));
        }
    }
}

/// Under the full mask, naming the single capabilities of some rows is
/// keeping the atomic rows and reading their names.
proof fn lemma_names_of_all_are_the_atomic_rows(rows: Seq<FlagDecl>)
    ensures
        rows.filter_map(|decl: FlagDecl| atomic_name_in(ALL, decl)) == rows.filter(
            |decl: FlagDecl| is_atomic(decl.bits),
        ).map_values(|decl: FlagDecl| decl.name),
    decreases rows.len(),
{
    reveal(Seq::filter);
    let pick = |decl: FlagDecl| atomic_name_in(ALL, decl);
    let keep = |decl: FlagDecl| is_atomic(decl.bits);
    let name = |decl: FlagDecl| decl.name;
    if rows.len() == 0 {
        assert(rows.filter_map(pick) =~= rows.filter(keep).map_values(name));
    } else {
        lemma_names_of_all_are_the_atomic_rows(rows.drop_last());
        let bits = rows.last().bits;
        assert(ALL & bits == bits) by (bit_vector)
            requires
                ALL == 0xffff_ffff_ffff_ffffu64,
        ;
        assert(rows.filter_map(pick) =~= rows.filter(keep).map_values(name));
    }
}

/// The full mask names exactly the declared single capabilities and none
/// of the unions; there are as many of them as their bits together count.
pub proof fn lemma_atomic_names_of_all()
    ensures
        atomic_names_of(ALL) == declared_atomic_names(),
        atomic_names_of(ALL) == atomic_flags().map_values(|decl: FlagDecl| decl.name),
        forall|i: int|
            0 <= i < atomic_flags().len() ==> is_atomic(#[trigger] atomic_flags()[i].bits),
        atomic_names_of(ALL).len() == popcount(atomic_union()),
{
    lemma_atomic_names_of_all_prefix(26);
    assert(declared_flags().take(26) =~= declared_flags());
    assert(declared_atomic_names().take(16) =~= declared_atomic_names());
    lemma_popcount_of_low_sixteen();
    assert(atomic_union() == 0xffff) by (bit_vector);
    lemma_names_of_all_are_the_atomic_rows(declared_flags());
    assert forall|i: int| 0 <= i < atomic_flags().len() implies is_atomic(
        #[trigger] atomic_flags()[i].bits,
    ) by {
        declared_flags().lemma_filter_pred(|decl: FlagDecl| is_atomic(decl.bits), i);
    }
}

} // verus!
