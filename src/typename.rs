//! Human-readable names of IR types, written into one buffer without an
//! intermediate string per nested type.
use vstd::prelude::*;
use crate::ir::{IrContext, types_extend};
use crate::types::{IntegerWidth, IrIntegerType, IrType, TypeId, refs_below};

verus! {

/// The name of an integer type: `i8` .. `i64`, `u8` .. `u64`.
pub open spec fn int_text(it: IrIntegerType) -> Seq<char> {
    let sign = if it.signed { 'i' } else { 'u' };
    match it.width {
        IntegerWidth::Eight => seq![sign, '8'],
        IntegerWidth::Sixteen => seq![sign, '1', '6'],
        IntegerWidth::ThirtyTwo => seq![sign, '3', '2'],
        IntegerWidth::SixtyFour => seq![sign, '6', '4'],
    }
}

/// The decimal digit for `d < 10`.
pub open spec fn digit_char(d: nat) -> char {
    if d == 0 { '0' }
    else if d == 1 { '1' }
    else if d == 2 { '2' }
    else if d == 3 { '3' }
    else if d == 4 { '4' }
    else if d == 5 { '5' }
    else if d == 6 { '6' }
    else if d == 7 { '7' }
    else if d == 8 { '8' }
    else { '9' }
}

/// `n` in decimal, without leading zeros.
pub open spec fn dec_text(n: nat) -> Seq<char>
    decreases n,
{
    if n < 10 {
        seq![digit_char(n)]
    } else {
        dec_text(n / 10) + seq![digit_char(n % 10)]
    }
}

/// The name given to an argument in a function type; none is written as nothing.
pub open spec fn opt_name(name: Option<String>) -> Seq<char> {
    match name {
        Some(s) => s@,
        None => Seq::empty(),
    }
}

/// The first `n` entries of `items`, each written as its type's name, then
/// `mid`, then its own text, then `end`. Only types stored before `id` are
/// named, which is what keeps the definition finite.
pub open spec fn list_text(
    types: Seq<IrType>,
    id: nat,
    items: Seq<(TypeId, Seq<char>)>,
    mid: Seq<char>,
    end: Seq<char>,
    n: nat,
) -> Seq<char>
    decreases id, n,
{
    if n == 0 || n > items.len() {
        Seq::empty()
    } else {
        let item = items[n - 1];
        list_text(types, id, items, mid, end, (n - 1) as nat) + (if item.0 < id {
            type_text(types, item.0 as nat)
        } else {
            Seq::empty()
        }) + mid + item.1 + end
    }
}

/// The human-readable name of the type stored under `id`.
pub open spec fn type_text(types: Seq<IrType>, id: nat) -> Seq<char>
    decreases id + 1, 0nat,
{
    match types[id as int] {
        IrType::Integer(it) => int_text(it),
        IrType::Float(f) => if f.doublewide {
            seq!['f', '6', '4']
        } else {
            seq!['f', '3', '2']
        },
        IrType::Bool => seq!['b', 'o', 'o', 'l'],
        IrType::Unit => seq!['(', ')'],
        IrType::Ptr(p) => seq!['*'] + (if p < id {
            type_text(types, p as nat)
        } else {
            Seq::empty()
        }),
        IrType::Array(a) => seq!['['] + dec_text(a.len as nat) + seq![']'] + (if a.element < id {
            type_text(types, a.element as nat)
        } else {
            Seq::empty()
        }),
        IrType::Struct(s) => seq!['{'] + list_text(
            types,
            id,
            s.fields@.map_values(|f: (TypeId, String)| (f.0, f.1@)),
            seq![' '],
            seq![','],
            s.fields@.len(),
        ) + seq!['}'],
        IrType::Sum(s) => list_text(
            types,
            id,
            s.variants@.map_values(|v: TypeId| (v, Seq::<char>::empty())),
            Seq::empty(),
            seq![' ', '|', ' '],
            s.variants@.len(),
        ),
        IrType::Fun(f) => seq!['f', 'u', 'n', ' ', '('] + list_text(
            types,
            id,
            f.args@.map_values(|a: (TypeId, Option<String>)| (a.0, opt_name(a.1))),
            seq![' '],
            seq![',', ' '],
            f.args@.len(),
        ) + seq![')', ' ', '-', '>', ' '] + (if f.return_ty < id {
            type_text(types, f.return_ty as nat)
        } else {
            Seq::empty()
        }),
        IrType::Alias { name, .. } => name@,
        IrType::Invalid => seq!['I', 'N', 'V', 'A', 'L', 'I', 'D'],
    }
}

/// Writes the decimal digit `d < 10`.
fn write_digit(d: u64, out: &mut String)
    requires
        d < 10,
    ensures
        final(out)@ == old(out)@ + seq![digit_char(d as nat)],
{
    let s: &str = if d == 0 {
        proof { reveal_strlit("0"); }
        "0"
    } else if d == 1 {
        proof { reveal_strlit("1"); }
        "1"
    } else if d == 2 {
        proof { reveal_strlit("2"); }
        "2"
    } else if d == 3 {
        proof { reveal_strlit("3"); }
        "3"
    } else if d == 4 {
        proof { reveal_strlit("4"); }
        "4"
    } else if d == 5 {
        proof { reveal_strlit("5"); }
        "5"
    } else if d == 6 {
        proof { reveal_strlit("6"); }
        "6"
    } else if d == 7 {
        proof { reveal_strlit("7"); }
        "7"
    } else if d == 8 {
        proof { reveal_strlit("8"); }
        "8"
    } else {
        proof { reveal_strlit("9"); }
        "9"
    };
    out.append(s);
}

/// Writes `n` in decimal.
pub fn write_dec(n: u64, out: &mut String)
    ensures
        final(out)@ == old(out)@ + dec_text(n as nat),
    decreases n,
{
    if n < 10 {
        write_digit(n, out);
    } else {
        write_dec(n / 10, out);
        write_digit(n % 10, out);
        assert(final(out)@ =~= old(out)@ + dec_text(n as nat));
    }
}

/// The name of an integer type.
fn int_name(it: IrIntegerType) -> (r: &'static str)
    ensures
        r@ == int_text(it),
{
    match (it.signed, it.width) {
        (true, IntegerWidth::Eight) => { proof { reveal_strlit("i8"); } "i8" },
        (true, IntegerWidth::Sixteen) => { proof { reveal_strlit("i16"); } "i16" },
        (true, IntegerWidth::ThirtyTwo) => { proof { reveal_strlit("i32"); } "i32" },
        (true, IntegerWidth::SixtyFour) => { proof { reveal_strlit("i64"); } "i64" },
        (false, IntegerWidth::Eight) => { proof { reveal_strlit("u8"); } "u8" },
        (false, IntegerWidth::Sixteen) => { proof { reveal_strlit("u16"); } "u16" },
        (false, IntegerWidth::ThirtyTwo) => { proof { reveal_strlit("u32"); } "u32" },
        (false, IntegerWidth::SixtyFour) => { proof { reveal_strlit("u64"); } "u64" },
    }
}

/// Writes the name of one type of a context.
pub struct TypenameFormatter<'ctx> {
    pub ctx: &'ctx IrContext,
    pub ty: TypeId,
}

impl<'ctx> TypenameFormatter<'ctx> {
    /// A formatter for `ty` over the same context.
    pub fn create(&self, ty: TypeId) -> (r: Self)
        ensures
            r.ctx == self.ctx,
            r.ty == ty,
    {
        TypenameFormatter { ctx: self.ctx, ty }
    }

    /// Appends the name of `self.ty` to `out`.
    pub fn fmt(&self, out: &mut String)
        requires
            self.ctx.wf(),
            self.ctx.valid_type(self.ty),
        ensures
            final(out)@ == old(out)@ + type_text(self.ctx.types@, self.ty as nat),
        decreases self.ty,
    {
        let ghost types = self.ctx.types@;
        let ghost id = self.ty as nat;
        let ghost start = out@;
        assert(refs_below_at(types, id));
        match self.ctx.ty(self.ty) {
            IrType::Integer(it) => {
                out.append(int_name(*it));
            },
            IrType::Float(f) => {
                if f.doublewide {
                    proof { reveal_strlit("f64"); }
                    out.append("f64");
                } else {
                    proof { reveal_strlit("f32"); }
                    out.append("f32");
                }
            },
            IrType::Bool => {
                proof { reveal_strlit("bool"); }
                out.append("bool");
            },
            IrType::Unit => {
                proof { reveal_strlit("()"); }
                out.append("()");
            },
            IrType::Ptr(p) => {
                proof { reveal_strlit("*"); }
                out.append("*");
                self.create(*p).fmt(out);
                assert(out@ =~= start + type_text(types, id));
            },
            IrType::Array(a) => {
                proof { reveal_strlit("["); reveal_strlit("]"); }
                out.append("[");
                write_dec(a.len, out);
                out.append("]");
                self.create(a.element).fmt(out);
                assert(out@ =~= start + type_text(types, id));
            },
            IrType::Struct(s) => {
                proof { reveal_strlit("{"); reveal_strlit(" "); reveal_strlit(","); reveal_strlit("}"); }
                out.append("{");
                let ghost items = s.fields@.map_values(|f: (TypeId, String)| (f.0, f.1@));
                let mut k: usize = 0;
                while k < s.fields.len()
                    invariant
                        self.ctx.wf(),
                        self.ctx.valid_type(self.ty),
                        types == self.ctx.types@,
                        id == self.ty as nat,
                        types[id as int] == IrType::Struct(*s),
                        refs_below(types[id as int], id),
                        items == s.fields@.map_values(|f: (TypeId, String)| (f.0, f.1@)),
                        k <= s.fields@.len(),
                        out@ == start + seq!['{'] + list_text(types, id, items, seq![' '], seq![','], k as nat),
                    decreases s.fields@.len() - k,
                {
                    proof { reveal_strlit(" "); reveal_strlit(","); }
                    let field = &s.fields[k];
                    assert(field.0 < id);
                    self.create(field.0).fmt(out);
                    out.append(" ");
                    out.append(field.1.as_str());
                    out.append(",");
                    assert(items[k as int] == (field.0, field.1@));
                    assert(list_text(types, id, items, seq![' '], seq![','], (k + 1) as nat)
                        == list_text(types, id, items, seq![' '], seq![','], k as nat)
                        + type_text(types, field.0 as nat) + seq![' '] + field.1@ + seq![',']);
                    assert(out@ =~= start + seq!['{'] + list_text(types, id, items, seq![' '], seq![','], (k + 1) as nat));
                    k = k + 1;
                }
                out.append("}");
                assert(out@ =~= start + type_text(types, id));
            },
            IrType::Sum(s) => {
                proof { reveal_strlit(" | "); reveal_strlit(""); }
                let ghost items = s.variants@.map_values(|v: TypeId| (v, Seq::<char>::empty()));
                let mut k: usize = 0;
                while k < s.variants.len()
                    invariant
                        self.ctx.wf(),
                        self.ctx.valid_type(self.ty),
                        types == self.ctx.types@,
                        id == self.ty as nat,
                        types[id as int] == IrType::Sum(*s),
                        refs_below(types[id as int], id),
                        items == s.variants@.map_values(|v: TypeId| (v, Seq::<char>::empty())),
                        k <= s.variants@.len(),
                        out@ == start + list_text(types, id, items, Seq::empty(), seq![' ', '|', ' '], k as nat),
                    decreases s.variants@.len() - k,
                {
                    proof { reveal_strlit(" | "); }
                    let v = s.variants[k];
                    assert(v < id);
                    self.create(v).fmt(out);
                    out.append(" | ");
                    assert(items[k as int] == (v, Seq::<char>::empty()));
                    assert(list_text(types, id, items, Seq::empty(), seq![' ', '|', ' '], (k + 1) as nat)
                        == list_text(types, id, items, Seq::empty(), seq![' ', '|', ' '], k as nat)
                        + type_text(types, v as nat) + Seq::<char>::empty() + Seq::<char>::empty() + seq![' ', '|', ' ']);
                    assert(out@ =~= start + list_text(types, id, items, Seq::empty(), seq![' ', '|', ' '], (k + 1) as nat));
                    k = k + 1;
                }
                assert(out@ =~= start + type_text(types, id));
            },
            IrType::Fun(f) => {
                proof { reveal_strlit("fun ("); reveal_strlit(" "); reveal_strlit(", "); reveal_strlit(") -> "); }
                out.append("fun (");
                let ghost items = f.args@.map_values(|a: (TypeId, Option<String>)| (a.0, opt_name(a.1)));
                let mut k: usize = 0;
                while k < f.args.len()
                    invariant
                        self.ctx.wf(),
                        self.ctx.valid_type(self.ty),
                        types == self.ctx.types@,
                        id == self.ty as nat,
                        types[id as int] == IrType::Fun(*f),
                        refs_below(types[id as int], id),
                        items == f.args@.map_values(|a: (TypeId, Option<String>)| (a.0, opt_name(a.1))),
                        k <= f.args@.len(),
                        out@ == start + seq!['f', 'u', 'n', ' ', '('] + list_text(types, id, items, seq![' '], seq![',', ' '], k as nat),
                    decreases f.args@.len() - k,
                {
                    proof { reveal_strlit(" "); reveal_strlit(", "); }
                    let arg = &f.args[k];
                    assert(arg.0 < id);
                    self.create(arg.0).fmt(out);
                    out.append(" ");
                    match &arg.1 {
                        Some(name) => out.append(name.as_str()),
                        None => {},
                    }
                    out.append(", ");
                    assert(items[k as int] == (arg.0, opt_name(arg.1)));
                    assert(list_text(types, id, items, seq![' '], seq![',', ' '], (k + 1) as nat)
                        == list_text(types, id, items, seq![' '], seq![',', ' '], k as nat)
                        + type_text(types, arg.0 as nat) + seq![' '] + opt_name(arg.1) + seq![',', ' ']);
                    assert(out@ =~= start + seq!['f', 'u', 'n', ' ', '('] + list_text(types, id, items, seq![' '], seq![',', ' '], (k + 1) as nat));
                    k = k + 1;
                }
                out.append(") -> ");
                self.create(f.return_ty).fmt(out);
                assert(out@ =~= start + type_text(types, id));
            },
            IrType::Alias { name, .. } => {
                out.append(name.as_str());
            },
            IrType::Invalid => {
                proof { reveal_strlit("INVALID"); }
                out.append("INVALID");
            },
        }
    }
}

/// The type stored under `id` mentions only handles below `id`, an alias's
/// underlying type aside.
pub open spec fn refs_below_at(types: Seq<IrType>, id: nat) -> bool {
    crate::types::refs_below(types[id as int], id)
}

impl IrContext {
    /// The human-readable name of the type stored under `ty`.
    pub fn typename(&self, ty: TypeId) -> (r: String)
        requires
            self.wf(),
            self.valid_type(ty),
        ensures
            r@ == type_text(self.types@, ty as nat),
    {
        let mut out = String::new();
        let f = TypenameFormatter { ctx: self, ty };
        f.fmt(&mut out);
        assert(out@ =~= type_text(self.types@, ty as nat));
        out
    }
}

/// Rendering a stored type gives the same text after any further insertions:
/// the name depends only on the types stored up to the handle itself.
pub proof fn lemma_type_text_stable(types: Seq<IrType>, later: Seq<IrType>, id: nat)
    requires
        types_extend(types, later),
        id < types.len(),
    ensures
        type_text(later, id) == type_text(types, id),
    decreases id + 1, 0nat,
{
    assert(later.subrange(0, types.len() as int)[id as int] == later[id as int]);
    match types[id as int] {
        IrType::Ptr(p) => {
            if p < id {
                lemma_type_text_stable(types, later, p as nat);
            }
        },
        IrType::Array(a) => {
            if a.element < id {
                lemma_type_text_stable(types, later, a.element as nat);
            }
        },
        IrType::Struct(st) => {
            lemma_list_text_stable(
                types,
                later,
                id,
                st.fields@.map_values(|f: (TypeId, String)| (f.0, f.1@)),
                seq![' '],
                seq![','],
                st.fields@.len(),
            );
        },
        IrType::Sum(su) => {
            lemma_list_text_stable(
                types,
                later,
                id,
                su.variants@.map_values(|v: TypeId| (v, Seq::<char>::empty())),
                Seq::empty(),
                seq![' ', '|', ' '],
                su.variants@.len(),
            );
        },
        IrType::Fun(f) => {
            lemma_list_text_stable(
                types,
                later,
                id,
                f.args@.map_values(|a: (TypeId, Option<String>)| (a.0, opt_name(a.1))),
                seq![' '],
                seq![',', ' '],
                f.args@.len(),
            );
            if f.return_ty < id {
                lemma_type_text_stable(types, later, f.return_ty as nat);
            }
        },
        _ => {},
    }
}

/// [list_text] over a store is unchanged when the store is extended.
pub proof fn lemma_list_text_stable(
    types: Seq<IrType>,
    later: Seq<IrType>,
    id: nat,
    items: Seq<(TypeId, Seq<char>)>,
    mid: Seq<char>,
    end: Seq<char>,
    n: nat,
)
    requires
        types_extend(types, later),
        id < types.len(),
    ensures
        list_text(later, id, items, mid, end, n) == list_text(types, id, items, mid, end, n),
    decreases id, n,
{
    if n != 0 && n <= items.len() {
        lemma_list_text_stable(types, later, id, items, mid, end, (n - 1) as nat);
        let c = items[n - 1].0;
        if c < id {
            lemma_type_text_stable(types, later, c as nat);
        }
    }
}

} // verus!
