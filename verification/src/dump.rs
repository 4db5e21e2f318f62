//! Writing a JSON picture of the server's data: the `Walk` and `Dump` traits and the
//! text of their entries.

use vstd::prelude::*;
use vstd::string::StringSliceAdditionalSpecFns;

verus! {

/// Walks a value, writing an entry for each piece of data it reaches.
pub trait Walk {
    /// True when `out` is what a walk of this value may append (entries hold addresses,
    /// which only the running process knows).
    spec fn walk_appends(&self, out: Seq<u8>) -> bool;

    fn walk(&self, f: &mut Vec<u8>)
        ensures
            exists|out: Seq<u8>| #[trigger] self.walk_appends(out) && final(f)@ == old(f)@ + out,
    ;
}

/// Writes one entry for a value itself.
pub trait Dump {
    /// True when `out` is what a dump of this value may append.
    spec fn dump_appends(&self, out: Seq<u8>) -> bool;

    fn dump(&self, f: &mut Vec<u8>)
        ensures
            exists|out: Seq<u8>| #[trigger] self.dump_appends(out) && final(f)@ == old(f)@ + out,
    ;
}

impl Walk for u8 {
    /// A plain value holds nothing to walk.
    open spec fn walk_appends(&self, out: Seq<u8>) -> bool {
        out.len() == 0
    }

    fn walk(&self, f: &mut Vec<u8>) {
        assert(f@ =~= f@ + Seq::<u8>::empty());
        assert(self.walk_appends(Seq::<u8>::empty()));
    }
}

impl Walk for u16 {
    /// A plain value holds nothing to walk.
    open spec fn walk_appends(&self, out: Seq<u8>) -> bool {
        out.len() == 0
    }

    fn walk(&self, f: &mut Vec<u8>) {
        assert(f@ =~= f@ + Seq::<u8>::empty());
        assert(self.walk_appends(Seq::<u8>::empty()));
    }
}

impl Walk for u32 {
    /// A plain value holds nothing to walk.
    open spec fn walk_appends(&self, out: Seq<u8>) -> bool {
        out.len() == 0
    }

    fn walk(&self, f: &mut Vec<u8>) {
        assert(f@ =~= f@ + Seq::<u8>::empty());
        assert(self.walk_appends(Seq::<u8>::empty()));
    }
}

impl Walk for u64 {
    /// A plain value holds nothing to walk.
    open spec fn walk_appends(&self, out: Seq<u8>) -> bool {
        out.len() == 0
    }

    fn walk(&self, f: &mut Vec<u8>) {
        assert(f@ =~= f@ + Seq::<u8>::empty());
        assert(self.walk_appends(Seq::<u8>::empty()));
    }
}

impl Walk for usize {
    /// A plain value holds nothing to walk.
    open spec fn walk_appends(&self, out: Seq<u8>) -> bool {
        out.len() == 0
    }

    fn walk(&self, f: &mut Vec<u8>) {
        assert(f@ =~= f@ + Seq::<u8>::empty());
        assert(self.walk_appends(Seq::<u8>::empty()));
    }
}

impl Walk for bool {
    /// A plain value holds nothing to walk.
    open spec fn walk_appends(&self, out: Seq<u8>) -> bool {
        out.len() == 0
    }

    fn walk(&self, f: &mut Vec<u8>) {
        assert(f@ =~= f@ + Seq::<u8>::empty());
        assert(self.walk_appends(Seq::<u8>::empty()));
    }
}

impl Walk for i8 {
    /// A plain value holds nothing to walk.
    open spec fn walk_appends(&self, out: Seq<u8>) -> bool {
        out.len() == 0
    }

    fn walk(&self, f: &mut Vec<u8>) {
        assert(f@ =~= f@ + Seq::<u8>::empty());
        assert(self.walk_appends(Seq::<u8>::empty()));
    }
}

impl Walk for i16 {
    /// A plain value holds nothing to walk.
    open spec fn walk_appends(&self, out: Seq<u8>) -> bool {
        out.len() == 0
    }

    fn walk(&self, f: &mut Vec<u8>) {
        assert(f@ =~= f@ + Seq::<u8>::empty());
        assert(self.walk_appends(Seq::<u8>::empty()));
    }
}

impl Walk for i32 {
    /// A plain value holds nothing to walk.
    open spec fn walk_appends(&self, out: Seq<u8>) -> bool {
        out.len() == 0
    }

    fn walk(&self, f: &mut Vec<u8>) {
        assert(f@ =~= f@ + Seq::<u8>::empty());
        assert(self.walk_appends(Seq::<u8>::empty()));
    }
}

impl Walk for i64 {
    /// A plain value holds nothing to walk.
    open spec fn walk_appends(&self, out: Seq<u8>) -> bool {
        out.len() == 0
    }

    fn walk(&self, f: &mut Vec<u8>) {
        assert(f@ =~= f@ + Seq::<u8>::empty());
        assert(self.walk_appends(Seq::<u8>::empty()));
    }
}

impl Walk for isize {
    /// A plain value holds nothing to walk.
    open spec fn walk_appends(&self, out: Seq<u8>) -> bool {
        out.len() == 0
    }

    fn walk(&self, f: &mut Vec<u8>) {
        assert(f@ =~= f@ + Seq::<u8>::empty());
        assert(self.walk_appends(Seq::<u8>::empty()));
    }
}

impl<T: Walk> Walk for Option<T> {
    /// The walk of the value held; nothing for `None`.
    open spec fn walk_appends(&self, out: Seq<u8>) -> bool {
        match self {
            Some(s) => s.walk_appends(out),
            None => out.len() == 0,
        }
    }

    fn walk(&self, f: &mut Vec<u8>) {
        match self {
            Some(s) => {
                let ghost start = f@;
                s.walk(f);
                proof {
                    let out = choose|out: Seq<u8>| s.walk_appends(out) && f@ == start + out;
                    assert(self.walk_appends(out));
                }
            },
            None => {
                assert(f@ =~= f@ + Seq::<u8>::empty());
                assert(self.walk_appends(Seq::<u8>::empty()));
            },
        }
    }
}

impl<T: Walk + Dump> Walk for Box<T> {
    /// The dump of the boxed value, then its walk.
    open spec fn walk_appends(&self, out: Seq<u8>) -> bool {
        exists|d: Seq<u8>, w: Seq<u8>|
            #![trigger (**self).dump_appends(d), (**self).walk_appends(w)]
            (**self).dump_appends(d) && (**self).walk_appends(w) && out == d + w
    }

    fn walk(&self, f: &mut Vec<u8>) {
        let ghost start = f@;
        (**self).dump(f);
        let ghost middle = f@;
        (**self).walk(f);
        proof {
            let d = choose|out: Seq<u8>| (**self).dump_appends(out) && middle == start + out;
            let w = choose|out: Seq<u8>| (**self).walk_appends(out) && f@ == middle + out;
            assert(f@ =~= start + (d + w));
            assert(self.walk_appends(d + w));
        }
    }
}

/// `out` is the walks of `items`, one after another in order.
pub open spec fn walks_in_order<T: Walk>(items: Seq<T>, out: Seq<u8>) -> bool
    decreases items.len(),
{
    if items.len() == 0 {
        out.len() == 0
    } else {
        exists|i: int|
            #![trigger out.take(i)]
            0 <= i <= out.len() && walks_in_order(items.drop_last(), out.take(i)) && items.last().walk_appends(
                out.skip(i),
            )
    }
}

impl<T: Walk> Walk for [T] {
    /// The walks of the elements, in index order.
    open spec fn walk_appends(&self, out: Seq<u8>) -> bool {
        walks_in_order(self@, out)
    }

    fn walk(&self, f: &mut Vec<u8>) {
        let ghost start = f@;
        assert(self@.take(0).len() == 0);
        assert(f@.skip(start.len() as int).len() == 0);
        let mut i: usize = 0;
        while i < self.len()
            invariant
                i <= self@.len(),
                start.len() <= f@.len(),
                f@.take(start.len() as int) == start,
                walks_in_order(self@.take(i as int), f@.skip(start.len() as int)),
            decreases self@.len() - i,
        {
            let ghost before = f@;
            self[i].walk(f);
            proof {
                let prev = before.skip(start.len() as int);
                let w = choose|out: Seq<u8>| self[i as int].walk_appends(out) && f@ == before + out;
                let out = f@.skip(start.len() as int);
                assert(out =~= prev + w);
                assert(out.take(prev.len() as int) =~= prev);
                assert(out.skip(prev.len() as int) =~= w);
                let items = self@.take(i + 1);
                assert(items.drop_last() =~= self@.take(i as int));
                assert(items.last() == self@[i as int]);
                assert(walks_in_order(items, out));
                assert(f@.take(start.len() as int) =~= start);
            }
            i = i + 1;
        }
        proof {
            assert(self@.take(self@.len() as int) =~= self@);
            let out = f@.skip(start.len() as int);
            assert(f@ =~= start + out);
            assert(self.walk_appends(out));
        }
    }
}

/// The decimal digits of `n`, as ASCII bytes.
pub open spec fn decimal(n: nat) -> Seq<u8>
    decreases n,
{
    if n < 10 {
        seq![(48 + n) as u8]
    } else {
        decimal(n / 10).push((48 + n % 10) as u8)
    }
}

/// The items of a byte list as Rust's `Debug` writes them: each value in decimal,
/// separated by `", "`.
pub open spec fn byte_list_items(data: Seq<u8>) -> Seq<u8>
    decreases data.len(),
{
    if data.len() == 0 {
        Seq::empty()
    } else if data.len() == 1 {
        decimal(data[0] as nat)
    } else {
        byte_list_items(data.drop_last()) + ", ".spec_bytes() + decimal(data.last() as nat)
    }
}

/// A byte list as Rust's `Debug` writes it, such as `[1, 0, 255]`.
pub open spec fn byte_list(data: Seq<u8>) -> Seq<u8> {
    "[".spec_bytes() + byte_list_items(data) + "]".spec_bytes()
}

/// The `n` bytes of `v`, least significant first.
pub open spec fn le_bytes(v: nat, n: nat) -> Seq<u8>
    decreases n,
{
    if n == 0 {
        Seq::empty()
    } else {
        seq![(v % 256) as u8] + le_bytes(v / 256, (n - 1) as nat)
    }
}

/// The start of an entry: the address as a key, then the bytes and the size.
pub open spec fn entry_head(address: Seq<u8>, data: Seq<u8>, size: nat) -> Seq<u8> {
    "\"".spec_bytes() + address + "\": { \"data\": ".spec_bytes() + byte_list(data)
        + ", \"__size__\": ".spec_bytes() + decimal(size)
}

/// The end of an entry: the type, and the separator that follows every entry.
pub open spec fn entry_tail(kind: Seq<u8>) -> Seq<u8> {
    ", \"__type__\": \"".spec_bytes() + kind + "\" }, ".spec_bytes()
}

/// The entry written for one value: its address, its bytes, its size and its type.
pub open spec fn entry_text(address: Seq<u8>, data: Seq<u8>, size: nat, kind: Seq<u8>) -> Seq<u8> {
    entry_head(address, data, size) + entry_tail(kind)
}

/// The entry written for a run of values: as `entry_text`, with the number of elements
/// between the size and the type.
pub open spec fn array_entry_text(
    address: Seq<u8>,
    data: Seq<u8>,
    size: nat,
    length: nat,
    kind: Seq<u8>,
) -> Seq<u8> {
    entry_head(address, data, size) + ", \"__length__\": ".spec_bytes() + decimal(length)
        + entry_tail(kind)
}

/// Appends the bytes of `text`.
pub fn push_text(f: &mut Vec<u8>, text: &str)
    ensures
        final(f)@ == old(f)@ + text.spec_bytes(),
{
    push_bytes(f, text.as_bytes());
}

/// Appends `bytes`.
pub fn push_bytes(f: &mut Vec<u8>, bytes: &[u8])
    ensures
        final(f)@ == old(f)@ + bytes@,
{
    let ghost start = f@;
    let mut i: usize = 0;
    while i < bytes.len()
        invariant
            i <= bytes@.len(),
            f@ == start + bytes@.subrange(0, i as int),
        decreases bytes@.len() - i,
    {
        f.push(bytes[i]);
        i = i + 1;
        assert(f@ =~= start + bytes@.subrange(0, i as int));
    }
    assert(bytes@.subrange(0, bytes@.len() as int) =~= bytes@);
}

/// Appends `n` in decimal.
pub fn push_decimal(f: &mut Vec<u8>, n: u64)
    ensures
        final(f)@ == old(f)@ + decimal(n as nat),
    decreases n,
{
    if n >= 10 {
        push_decimal(f, n / 10);
    }
    let digit: u8 = (48 + n % 10) as u8;
    f.push(digit);
    proof {
        if n >= 10 {
            assert(decimal(n as nat) == decimal((n / 10) as nat).push(digit));
        } else {
            assert(n % 10 == n);
        }
    }
    assert(f@ =~= old(f)@ + decimal(n as nat));
}

/// Appends `data` as Rust's `Debug` writes a byte slice.
pub fn push_byte_list(f: &mut Vec<u8>, data: &[u8])
    ensures
        final(f)@ == old(f)@ + byte_list(data@),
{
    let ghost start = f@;
    push_text(f, "[");
    let mut i: usize = 0;
    while i < data.len()
        invariant
            i <= data@.len(),
            f@ == start + "[".spec_bytes() + byte_list_items(data@.subrange(0, i as int)),
        decreases data@.len() - i,
    {
        if i > 0 {
            push_text(f, ", ");
        }
        push_decimal(f, data[i] as u64);
        proof {
            let t = data@.subrange(0, i + 1);
            assert(t.drop_last() =~= data@.subrange(0, i as int));
            assert(t.last() == data@[i as int]);
            if i == 0 {
                assert(byte_list_items(data@.subrange(0, 0)) =~= Seq::<u8>::empty());
                assert(f@ =~= start + "[".spec_bytes() + byte_list_items(t));
            } else {
                assert(f@ =~= start + "[".spec_bytes() + byte_list_items(t));
            }
        }
        i = i + 1;
    }
    assert(data@.subrange(0, data@.len() as int) =~= data@);
    push_text(f, "]");
    assert(f@ =~= start + byte_list(data@));
}

fn push_entry_head(f: &mut Vec<u8>, address: &str, data: &[u8], size: u64)
    ensures
        final(f)@ == old(f)@ + entry_head(address.spec_bytes(), data@, size as nat),
{
    let ghost start = f@;
    push_text(f, "\"");
    push_text(f, address);
    push_text(f, "\": { \"data\": ");
    push_byte_list(f, data);
    push_text(f, ", \"__size__\": ");
    push_decimal(f, size);
    assert(f@ =~= start + entry_head(address.spec_bytes(), data@, size as nat));
}

fn push_entry_tail(f: &mut Vec<u8>, kind: &str)
    ensures
        final(f)@ == old(f)@ + entry_tail(kind.spec_bytes()),
{
    let ghost start = f@;
    push_text(f, ", \"__type__\": \"");
    push_text(f, kind);
    push_text(f, "\" }, ");
    assert(f@ =~= start + entry_tail(kind.spec_bytes()));
}

/// Appends the entry of one value.
pub fn write_entry(f: &mut Vec<u8>, address: &str, data: &[u8], size: u64, kind: &str)
    ensures
        final(f)@ == old(f)@ + entry_text(address.spec_bytes(), data@, size as nat, kind.spec_bytes()),
{
    let ghost start = f@;
    push_entry_head(f, address, data, size);
    push_entry_tail(f, kind);
    assert(f@ =~= start + entry_text(address.spec_bytes(), data@, size as nat, kind.spec_bytes()));
}

/// Appends the entry of a run of `length` values.
pub fn write_array_entry(
    f: &mut Vec<u8>,
    address: &str,
    data: &[u8],
    size: u64,
    length: u64,
    kind: &str,
)
    ensures
        final(f)@ == old(f)@ + array_entry_text(
            address.spec_bytes(),
            data@,
            size as nat,
            length as nat,
            kind.spec_bytes(),
        ),
{
    let ghost start = f@;
    push_entry_head(f, address, data, size);
    push_text(f, ", \"__length__\": ");
    push_decimal(f, length);
    push_entry_tail(f, kind);
    assert(f@ =~= start + array_entry_text(
        address.spec_bytes(),
        data@,
        size as nat,
        length as nat,
        kind.spec_bytes(),
    ));
}

/// The `n` bytes of `v`, least significant first: how an `n`-byte integer lies in the
/// memory of a little-endian machine, which the dumps of integers write.
pub fn little_endian_bytes(v: u64, n: usize) -> (r: Vec<u8>)
    ensures
        r@ == le_bytes(v as nat, n as nat),
{
    let mut r: Vec<u8> = Vec::new();
    let mut rest: u64 = v;
    let mut k: usize = 0;
    while k < n
        invariant
            k <= n,
            r@ + le_bytes(rest as nat, (n - k) as nat) == le_bytes(v as nat, n as nat),
        decreases n - k,
    {
        let ghost old_r = r@;
        r.push((rest % 256) as u8);
        assert(le_bytes(rest as nat, (n - k) as nat) == seq![(rest % 256) as u8] + le_bytes(
            (rest / 256) as nat,
            (n - k - 1) as nat,
        ));
        assert(r@ + le_bytes((rest / 256) as nat, (n - k - 1) as nat) =~= old_r + le_bytes(
            rest as nat,
            (n - k) as nat,
        ));
        rest = rest / 256;
        k = k + 1;
    }
    assert(le_bytes(rest as nat, 0) =~= Seq::<u8>::empty());
    assert(r@ + Seq::<u8>::empty() =~= r@);
    r
}

/// Formats the address of `value` with `std::fmt::Pointer` (`{:p}`, through `format!`).
///
/// Nothing is claimed of the text: it shows where the value lies in memory, which only
/// the running process knows.
#[verifier::external_body]
fn address_text<T: ?Sized>(value: &T) -> String {
    format!("{:p}", value)
}

/// The kind written for values whose type the dump does not name.
pub open spec fn unknown_kind() -> Seq<u8> {
    "unknown".spec_bytes()
}

impl Dump for u8 {
    /// The entry of the value: its address and its 1 byte(s), least significant first
    /// (the value's layout in memory on little-endian machines).
    open spec fn dump_appends(&self, out: Seq<u8>) -> bool {
        exists|address: Seq<u8>| out == #[trigger] entry_text(address, le_bytes((*self) as nat, 1), 1, unknown_kind())
    }

    fn dump(&self, f: &mut Vec<u8>) {
        let address = address_text(self);
        let data = little_endian_bytes(*self as u64, 1);
        let text = address.as_str();
        write_entry(f, text, data.as_slice(), 1, "unknown");
        assert(self.dump_appends(entry_text(text.spec_bytes(), data@, 1, unknown_kind())));
    }
}

impl Dump for u16 {
    /// The entry of the value: its address and its 2 byte(s), least significant first
    /// (the value's layout in memory on little-endian machines).
    open spec fn dump_appends(&self, out: Seq<u8>) -> bool {
        exists|address: Seq<u8>| out == #[trigger] entry_text(address, le_bytes((*self) as nat, 2), 2, unknown_kind())
    }

    fn dump(&self, f: &mut Vec<u8>) {
        let address = address_text(self);
        let data = little_endian_bytes(*self as u64, 2);
        let text = address.as_str();
        write_entry(f, text, data.as_slice(), 2, "unknown");
        assert(self.dump_appends(entry_text(text.spec_bytes(), data@, 2, unknown_kind())));
    }
}

impl Dump for u32 {
    /// The entry of the value: its address and its 4 byte(s), least significant first
    /// (the value's layout in memory on little-endian machines).
    open spec fn dump_appends(&self, out: Seq<u8>) -> bool {
        exists|address: Seq<u8>| out == #[trigger] entry_text(address, le_bytes((*self) as nat, 4), 4, unknown_kind())
    }

    fn dump(&self, f: &mut Vec<u8>) {
        let address = address_text(self);
        let data = little_endian_bytes(*self as u64, 4);
        let text = address.as_str();
        write_entry(f, text, data.as_slice(), 4, "unknown");
        assert(self.dump_appends(entry_text(text.spec_bytes(), data@, 4, unknown_kind())));
    }
}

impl Dump for u64 {
    /// The entry of the value: its address and its 8 byte(s), least significant first
    /// (the value's layout in memory on little-endian machines).
    open spec fn dump_appends(&self, out: Seq<u8>) -> bool {
        exists|address: Seq<u8>| out == #[trigger] entry_text(address, le_bytes((*self) as nat, 8), 8, unknown_kind())
    }

    fn dump(&self, f: &mut Vec<u8>) {
        let address = address_text(self);
        let data = little_endian_bytes(*self, 8);
        let text = address.as_str();
        write_entry(f, text, data.as_slice(), 8, "unknown");
        assert(self.dump_appends(entry_text(text.spec_bytes(), data@, 8, unknown_kind())));
    }
}

impl Dump for i8 {
    /// The entry of the value: its address and its 1 byte(s), least significant first
    /// (the value's layout in memory on little-endian machines).
    open spec fn dump_appends(&self, out: Seq<u8>) -> bool {
        exists|address: Seq<u8>| out == #[trigger] entry_text(address, le_bytes(((*self) as u8) as nat, 1), 1, unknown_kind())
    }

    fn dump(&self, f: &mut Vec<u8>) {
        let address = address_text(self);
        let data = little_endian_bytes((*self as u8) as u64, 1);
        let text = address.as_str();
        write_entry(f, text, data.as_slice(), 1, "unknown");
        assert(self.dump_appends(entry_text(text.spec_bytes(), data@, 1, unknown_kind())));
    }
}

impl Dump for i16 {
    /// The entry of the value: its address and its 2 byte(s), least significant first
    /// (the value's layout in memory on little-endian machines).
    open spec fn dump_appends(&self, out: Seq<u8>) -> bool {
        exists|address: Seq<u8>| out == #[trigger] entry_text(address, le_bytes(((*self) as u16) as nat, 2), 2, unknown_kind())
    }

    fn dump(&self, f: &mut Vec<u8>) {
        let address = address_text(self);
        let data = little_endian_bytes((*self as u16) as u64, 2);
        let text = address.as_str();
        write_entry(f, text, data.as_slice(), 2, "unknown");
        assert(self.dump_appends(entry_text(text.spec_bytes(), data@, 2, unknown_kind())));
    }
}

impl Dump for i32 {
    /// The entry of the value: its address and its 4 byte(s), least significant first
    /// (the value's layout in memory on little-endian machines).
    open spec fn dump_appends(&self, out: Seq<u8>) -> bool {
        exists|address: Seq<u8>| out == #[trigger] entry_text(address, le_bytes(((*self) as u32) as nat, 4), 4, unknown_kind())
    }

    fn dump(&self, f: &mut Vec<u8>) {
        let address = address_text(self);
        let data = little_endian_bytes((*self as u32) as u64, 4);
        let text = address.as_str();
        write_entry(f, text, data.as_slice(), 4, "unknown");
        assert(self.dump_appends(entry_text(text.spec_bytes(), data@, 4, unknown_kind())));
    }
}

impl Dump for i64 {
    /// The entry of the value: its address and its 8 byte(s), least significant first
    /// (the value's layout in memory on little-endian machines).
    open spec fn dump_appends(&self, out: Seq<u8>) -> bool {
        exists|address: Seq<u8>| out == #[trigger] entry_text(address, le_bytes(((*self) as u64) as nat, 8), 8, unknown_kind())
    }

    fn dump(&self, f: &mut Vec<u8>) {
        let address = address_text(self);
        let data = little_endian_bytes(*self as u64, 8);
        let text = address.as_str();
        write_entry(f, text, data.as_slice(), 8, "unknown");
        assert(self.dump_appends(entry_text(text.spec_bytes(), data@, 8, unknown_kind())));
    }
}

/// The byte that stores a boolean: 1 for true, 0 for false.
pub open spec fn bool_byte(b: bool) -> u8 {
    if b { 1 } else { 0 }
}

impl Dump for bool {
    /// The entry of the value: its address and one byte, 1 for true and 0 for false.
    open spec fn dump_appends(&self, out: Seq<u8>) -> bool {
        exists|address: Seq<u8>| out == #[trigger] entry_text(address, seq![bool_byte(*self)], 1, unknown_kind())
    }

    fn dump(&self, f: &mut Vec<u8>) {
        let address = address_text(self);
        let mut data: Vec<u8> = Vec::new();
        data.push(if *self { 1u8 } else { 0u8 });
        let text = address.as_str();
        write_entry(f, text, data.as_slice(), 1, "unknown");
        assert(data@ =~= seq![bool_byte(*self)]);
        assert(self.dump_appends(entry_text(text.spec_bytes(), data@, 1, unknown_kind())));
    }
}

impl Dump for usize {
    /// The entry of the value: its address and its bytes (as many as the machine's word
    /// holds), least significant first (the value's layout in memory on little-endian
    /// machines).
    open spec fn dump_appends(&self, out: Seq<u8>) -> bool {
        exists|address: Seq<u8>|
            out == #[trigger] entry_text(
                address,
                le_bytes((*self) as nat, vstd::layout::size_of::<usize>()),
                vstd::layout::size_of::<usize>(),
                unknown_kind(),
            )
    }

    fn dump(&self, f: &mut Vec<u8>) {
        broadcast use vstd::layout::layout_of_primitives;
        let address = address_text(self);
        let size: usize = core::mem::size_of::<usize>();
        let data = little_endian_bytes(*self as u64, size);
        let text = address.as_str();
        write_entry(f, text, data.as_slice(), size as u64, "unknown");
        assert(self.dump_appends(entry_text(text.spec_bytes(), data@, size as nat, unknown_kind())));
    }
}

impl Dump for isize {
    /// The entry of the value: its address and its bytes (as many as the machine's word
    /// holds), least significant first (the value's layout in memory on little-endian
    /// machines).
    open spec fn dump_appends(&self, out: Seq<u8>) -> bool {
        exists|address: Seq<u8>|
            out == #[trigger] entry_text(
                address,
                le_bytes(((*self) as usize) as nat, vstd::layout::size_of::<usize>()),
                vstd::layout::size_of::<usize>(),
                unknown_kind(),
            )
    }

    fn dump(&self, f: &mut Vec<u8>) {
        broadcast use vstd::layout::layout_of_primitives;
        let address = address_text(self);
        let size: usize = core::mem::size_of::<usize>();
        let data = little_endian_bytes((*self as usize) as u64, size);
        let text = address.as_str();
        write_entry(f, text, data.as_slice(), size as u64, "unknown");
        assert(self.dump_appends(entry_text(text.spec_bytes(), data@, size as nat, unknown_kind())));
    }
}

/// True for the first byte of the record kinds that a run of 216-byte elements may hold.
pub open spec fn known_record_tag(tag: u8) -> bool {
    tag == 0 || tag == 1 || tag == 2 || tag == 4 || tag == 8 || tag == 11 || tag == 15 || tag == 20
}

/// The kind written for a run of elements of `size` bytes whose first byte is `tag`.
pub open spec fn element_kind(size: nat, tag: u8) -> Seq<u8> {
    if size == 216 {
        if tag == 0 {
            "RecordAa".spec_bytes()
        } else if tag == 1 {
            "RecordAaaa".spec_bytes()
        } else if tag == 2 || tag == 4 || tag == 11 {
            "RecordName".spec_bytes()
        } else if tag == 8 {
            "RecordMx".spec_bytes()
        } else if tag == 15 {
            "RecordSoa".spec_bytes()
        } else {
            "RecordTxt".spec_bytes()
        }
    } else if size == 1 {
        "i8".spec_bytes()
    } else {
        "unknown".spec_bytes()
    }
}

/// The kind of a run of elements of `size` bytes whose first byte is `tag`: 216-byte
/// elements are records, told apart by their first byte; 1-byte elements are `i8`.
pub fn element_kind_name(size: u64, tag: u8) -> (r: &'static str)
    requires
        size == 216 ==> known_record_tag(tag),
    ensures
        r.spec_bytes() == element_kind(size as nat, tag),
{
    if size == 216 {
        if tag == 0 {
            "RecordAa"
        } else if tag == 1 {
            "RecordAaaa"
        } else if tag == 2 || tag == 4 || tag == 11 {
            "RecordName"
        } else if tag == 8 {
            "RecordMx"
        } else if tag == 15 {
            "RecordSoa"
        } else {
            "RecordTxt"
        }
    } else if size == 1 {
        "i8"
    } else {
        "unknown"
    }
}

/// Walks the elements of a vector: when it holds any, first the entry of its buffer
/// (`raw`, the bytes of all its elements, each `element_size` long, at `address`), then
/// the walk of each element, in order.
pub fn walk_vec<T: Walk>(items: &[T], address: &str, raw: &[u8], element_size: u64, f: &mut Vec<u8>)
    requires
        raw@.len() == element_size * items@.len(),
        items@.len() > 0 && element_size == 216 ==> known_record_tag(raw@[0]),
    ensures
        items@.len() == 0 ==> final(f)@ == old(f)@,
        items@.len() > 0 ==> exists|walks: Seq<u8>|
            #[trigger] walks_in_order(items@, walks) && final(f)@ == old(f)@ + array_entry_text(
                address.spec_bytes(),
                raw@,
                element_size as nat,
                items@.len() as nat,
                element_kind(element_size as nat, raw@[0]),
            ) + walks,
{
    if items.len() == 0 {
        return;
    }
    proof {
        vstd::arithmetic::mul::lemma_mul_inequality(1, items@.len() as int, element_size as int);
        vstd::arithmetic::mul::lemma_mul_is_commutative(items@.len() as int, element_size as int);
    }
    let tag: u8 = if element_size == 216 { raw[0] } else { 0 };
    let kind = element_kind_name(element_size, tag);
    write_array_entry(f, address, raw, element_size, items.len() as u64, kind);
    proof {
        if element_size != 216 {
            assert(element_kind(element_size as nat, tag) == element_kind(element_size as nat, raw@[0]));
        }
    }
    let ghost written = f@;
    items.walk(f);
    proof {
        let walks = choose|out: Seq<u8>| items.walk_appends(out) && f@ == written + out;
        assert(walks_in_order(items@, walks));
    }
}

/// The kind written for the shared block of an `Arc` of `size` bytes: the two blocks the
/// server shares (record sets and file authorities) are named by their size.
pub open spec fn arc_inner_kind(size: nat) -> Seq<u8> {
    if size == 136 {
        "%\\\"alloc::sync::ArcInner<hickory_proto::rr::rr_set::RecordSet>\\\"".spec_bytes()
    } else if size == 152 {
        "%\\\"alloc::sync::ArcInner<hickory_server::store::file::authority::FileAuthority>\\\"".spec_bytes()
    } else {
        "unknown".spec_bytes()
    }
}

/// The bytes of an `Arc`'s shared block with each reference count (the first byte of
/// each of its two counters) that reads 1 written as 2.
pub open spec fn shared_counts(raw: Seq<u8>) -> Seq<u8> {
    raw.update(0, if raw[0] == 1 { 2u8 } else { raw[0] }).update(8, if raw[8] == 1 { 2u8 } else { raw[8] })
}

/// Writes the entry of an `Arc`'s shared block: `raw` holds its bytes, at `address`.
pub fn dump_arc_inner(f: &mut Vec<u8>, address: &str, raw: &[u8])
    requires
        raw@.len() > 8,
    ensures
        final(f)@ == old(f)@ + entry_text(
            address.spec_bytes(),
            shared_counts(raw@),
            raw@.len(),
            arc_inner_kind(raw@.len()),
        ),
{
    let size: usize = raw.len();
    let kind: &str = if size == 136 {
        "%\\\"alloc::sync::ArcInner<hickory_proto::rr::rr_set::RecordSet>\\\""
    } else if size == 152 {
        "%\\\"alloc::sync::ArcInner<hickory_server::store::file::authority::FileAuthority>\\\""
    } else {
        "unknown"
    };
    let mut bytes: Vec<u8> = Vec::new();
    push_bytes(&mut bytes, raw);
    assert(bytes@ =~= raw@);
    if bytes[0] == 1 {
        bytes.set(0, 2);
    }
    if bytes[8] == 1 {
        bytes.set(8, 2);
    }
    assert(bytes@ =~= shared_counts(raw@));
    write_entry(f, address, bytes.as_slice(), size as u64, kind);
}

/// Walks the value an `Arc` shares: the entry of its shared block (`raw`, at `address`),
/// then the walk of the value itself.
pub fn walk_arc<T: Walk>(inner: &T, address: &str, raw: &[u8], f: &mut Vec<u8>)
    requires
        raw@.len() > 8,
    ensures
        exists|walk: Seq<u8>|
            #[trigger] inner.walk_appends(walk) && final(f)@ == old(f)@ + entry_text(
                address.spec_bytes(),
                shared_counts(raw@),
                raw@.len(),
                arc_inner_kind(raw@.len()),
            ) + walk,
{
    dump_arc_inner(f, address, raw);
    let ghost written = f@;
    inner.walk(f);
    proof {
        let walk = choose|out: Seq<u8>| inner.walk_appends(out) && f@ == written + out;
        assert(inner.walk_appends(walk));
    }
}

/// Writes the entry of a slice: `raw` holds the bytes of its `length` elements of
/// `element_size` bytes each, at `address`.
pub fn dump_slice(f: &mut Vec<u8>, address: &str, raw: &[u8], element_size: u64, length: u64)
    ensures
        final(f)@ == old(f)@ + array_entry_text(
            address.spec_bytes(),
            raw@,
            element_size as nat,
            length as nat,
            "array unknown".spec_bytes(),
        ),
{
    write_array_entry(f, address, raw, element_size, length, "array unknown");
}

/// Writes the entry of an `Option`: `raw` holds its bytes, at `address`.
pub fn dump_option(f: &mut Vec<u8>, address: &str, raw: &[u8])
    ensures
        final(f)@ == old(f)@ + entry_text(
            address.spec_bytes(),
            raw@,
            raw@.len(),
            "option unknown".spec_bytes(),
        ),
{
    write_entry(f, address, raw, raw.len() as u64, "option unknown");
}

/// Writes the entry of a pointer that holds an authority: `raw` holds the pointer's own
/// bytes, at `address`.
pub fn dump_pointer_entry(f: &mut Vec<u8>, address: &str, raw: &[u8])
    ensures
        final(f)@ == old(f)@ + entry_text(address.spec_bytes(), raw@, raw@.len(), "ptr".spec_bytes()),
{
    write_entry(f, address, raw, raw.len() as u64, "ptr");
}

/// The entry that locates a request's header and query, and the request itself.
pub open spec fn request_info_text(header: Seq<u8>, query: Seq<u8>, base: Seq<u8>) -> Seq<u8> {
    "\"%request_info\": { \"data\": [\"".spec_bytes() + header + "\", \"".spec_bytes() + query
        + "\"], \"base\": \"".spec_bytes() + base + "\" }, ".spec_bytes()
}

/// Starts a dump: an empty buffer opened as a JSON object.
pub fn begin_dump() -> (r: Vec<u8>)
    ensures
        r@ == "{".spec_bytes(),
{
    let mut r: Vec<u8> = Vec::new();
    push_text(&mut r, "{");
    assert(r@ =~= "{".spec_bytes());
    r
}

/// Writes the entry that locates a request: the addresses of its header, its query and
/// the request itself.
pub fn write_request_info(f: &mut Vec<u8>, header: &str, query: &str, base: &str)
    ensures
        final(f)@ == old(f)@ + request_info_text(header.spec_bytes(), query.spec_bytes(), base.spec_bytes()),
{
    let ghost start = f@;
    push_text(f, "\"%request_info\": { \"data\": [\"");
    push_text(f, header);
    push_text(f, "\", \"");
    push_text(f, query);
    push_text(f, "\"], \"base\": \"");
    push_text(f, base);
    push_text(f, "\" }, ");
    assert(f@ =~= start + request_info_text(header.spec_bytes(), query.spec_bytes(), base.spec_bytes()));
}

/// A dump closed as a JSON object: the bytes are dropped from the end up to and including
/// the last comma, which is replaced by `}`; with no comma nothing is left.
pub open spec fn closed_dump(s: Seq<u8>) -> Seq<u8>
    decreases s.len(),
{
    if s.len() == 0 {
        s
    } else if s.last() == 44 {
        s.drop_last() + "}".spec_bytes()
    } else {
        closed_dump(s.drop_last())
    }
}

/// Closes a dump: every entry ends with `", "`, so the last separator gives way to the
/// brace that ends the object.
pub fn end_dump(f: &mut Vec<u8>)
    ensures
        final(f)@ == closed_dump(old(f)@),
{
    loop
        invariant
            closed_dump(f@) == closed_dump(old(f)@),
        ensures
            f@ == closed_dump(old(f)@),
        decreases f@.len(),
    {
        match f.pop() {
            Some(ch) => {
                if ch == 44 {
                    push_text(f, "}");
                    return;
                }
            },
            None => {
                return;
            },
        }
    }
}

proof fn lemma_separator_bytes()
    ensures
        ", ".spec_bytes() == seq![44u8, 32u8],
{
    reveal_strlit(", ");
    assert(vstd::utf8::is_ascii_chars(", "@));
    vstd::string::is_ascii_spec_bytes(", ");
    assert(", ".spec_bytes() =~= seq![44u8, 32u8]);
}

/// Closing a dump whose last entry ends with the separator `", "` replaces that separator
/// with the closing brace.
pub proof fn law_end_dump_replaces_last_separator(body: Seq<u8>)
    ensures
        closed_dump(body + ", ".spec_bytes()) == body + "}".spec_bytes(),
{
    lemma_separator_bytes();
    let s = body + ", ".spec_bytes();
    assert(s.last() == 32);
    assert(s.drop_last() =~= body + seq![44u8]);
    assert((body + seq![44u8]).last() == 44);
    assert((body + seq![44u8]).drop_last() =~= body);
    assert(closed_dump(s) == closed_dump(s.drop_last()));
    assert(closed_dump(body + seq![44u8]) == body + "}".spec_bytes());
}

/// Closing a dump cuts it at its last comma and puts the closing brace there.
pub proof fn law_end_dump_cuts_at_last_comma(s: Seq<u8>, i: int)
    requires
        0 <= i < s.len(),
        s[i] == 44,
        forall|j: int| i < j < s.len() ==> s[j] != 44,
    ensures
        closed_dump(s) == s.take(i) + "}".spec_bytes(),
    decreases s.len(),
{
    let rest = s.drop_last();
    if s.last() == 44 {
        assert(i == s.len() - 1);
        assert(s.take(i) =~= rest);
    } else {
        assert(i < s.len() - 1);
        law_end_dump_cuts_at_last_comma(rest, i);
        assert(rest.take(i) =~= s.take(i));
    }
}

/// Closing a dump without any comma empties it.
pub proof fn law_end_dump_without_comma_empties(s: Seq<u8>)
    requires
        forall|j: int| 0 <= j < s.len() ==> s[j] != 44,
    ensures
        closed_dump(s) == Seq::<u8>::empty(),
    decreases s.len(),
{
    if s.len() > 0 {
        let rest = s.drop_last();
        assert(s.last() == s[s.len() - 1]);
        law_end_dump_without_comma_empties(rest);
    } else {
        assert(s =~= Seq::<u8>::empty());
    }
}

} // verus!
