use vstd::prelude::*;
use vstd::string::{StrSliceExecFns, StringExecFns};
use std::any::TypeId;
use crate::shader::ShaderStage;

verus! {

/// A line that starts with this is replaced by the generated declarations.
pub open spec fn generated_include_marker() -> Seq<char> {
    seq![
        '#', 'i', 'n', 'c', 'l', 'u', 'd', 'e', ' ', '"', 's', 'i', 'e', 'r', 'r', 'a', '_', 'g',
        'e', 'n', 'e', 'r', 'a', 't', 'e', 'd', '.', 'h', '"',
    ]
}

/// Index of the first line feed in `s`, or the length of `s` when it has none.
pub open spec fn first_line_feed(s: Seq<char>) -> nat
    decreases s.len(),
{
    if s.len() == 0 {
        0
    } else if s[0] == '\n' {
        0
    } else {
        1 + first_line_feed(s.drop_first())
    }
}

/// The lines of `s`, split as `str::lines` splits them: at each line feed, dropping a
/// carriage return just before it; a last line without a line feed is kept as it is, and
/// no empty line follows a final line feed.
pub open spec fn text_lines(s: Seq<char>) -> Seq<Seq<char>>
    decreases s.len(),
{
    if s.len() == 0 {
        Seq::empty()
    } else {
        let k = first_line_feed(s);
        if k >= s.len() {
            seq![s]
        } else {
            let raw = s.take(k as int);
            let line = if raw.len() > 0 && raw.last() == '\r' {
                raw.drop_last()
            } else {
                raw
            };
            seq![line] + text_lines(s.skip((k + 1) as int))
        }
    }
}

/// The lines joined without separators, each line that starts with the include marker
/// replaced by `generated`.
pub open spec fn with_generated(lines: Seq<Seq<char>>, generated: Seq<char>) -> Seq<char>
    decreases lines.len(),
{
    if lines.len() == 0 {
        Seq::empty()
    } else {
        (if generated_include_marker().is_prefix_of(lines[0]) {
            generated
        } else {
            lines[0]
        }) + with_generated(lines.drop_first(), generated)
    }
}

proof fn lemma_first_line_feed(s: Seq<char>, k: int)
    requires
        0 <= k <= s.len(),
        k < s.len() ==> s[k] == '\n',
        forall|m: int| 0 <= m < k ==> s[m] != '\n',
    ensures
        first_line_feed(s) == k,
    decreases k,
{
    if k > 0 {
        assert forall|m: int| 0 <= m < k - 1 implies s.drop_first()[m] != '\n' by {
            assert(s.drop_first()[m] == s[m + 1]);
        }
        lemma_first_line_feed(s.drop_first(), k - 1);
    }
}

/// A line of a text by its bounds, and whether it starts with the include marker.
struct LineSegment {
    start: usize,
    end: usize,
    is_include: bool,
}

/// `seg` lies within `code` and tells whether its line starts with the include marker.
spec fn segment_ok(code: Seq<char>, seg: LineSegment) -> bool {
    &&& seg.start <= seg.end <= code.len()
    &&& seg.is_include == generated_include_marker().is_prefix_of(code.subrange(seg.start as int, seg.end as int))
}

spec fn segments_valid(code: Seq<char>, segs: Seq<LineSegment>) -> bool {
    forall|m: int| 0 <= m < segs.len() ==> #[trigger] segment_ok(code, segs[m])
}

/// The lines that `segs` bound in `code`.
spec fn segment_lines(code: Seq<char>, segs: Seq<LineSegment>) -> Seq<Seq<char>> {
    Seq::new(segs.len(), |m: int| code.subrange(segs[m].start as int, segs[m].end as int))
}

/// The text that one line gives: `generated` for a line with the include marker, else
/// the line itself.
pub open spec fn spliced_line(line: Seq<char>, generated: Seq<char>) -> Seq<char> {
    if generated_include_marker().is_prefix_of(line) {
        generated
    } else {
        line
    }
}

/// Joining one more line appends what that line gives.
proof fn lemma_with_generated_push(lines: Seq<Seq<char>>, line: Seq<char>, generated: Seq<char>)
    ensures
        with_generated(lines.push(line), generated) == with_generated(lines, generated) + spliced_line(
            line,
            generated,
        ),
    decreases lines.len(),
{
    if lines.len() == 0 {
        let one = lines.push(line);
        assert(one.drop_first() =~= Seq::<Seq<char>>::empty());
        assert(one[0] == line);
        assert(with_generated(one.drop_first(), generated) == Seq::<char>::empty());
        assert(with_generated(lines, generated) == Seq::<char>::empty());
        assert(with_generated(one, generated) =~= spliced_line(line, generated));
    } else {
        assert(lines.push(line).drop_first() =~= lines.drop_first().push(line));
        lemma_with_generated_push(lines.drop_first(), line, generated);
        assert(with_generated(lines.push(line), generated) =~= with_generated(lines, generated)
            + spliced_line(line, generated));
    }
}

/// The lines joined without separators, the `k`-th line that starts with the include
/// marker replaced by `gens[k]`.
pub open spec fn with_generated_each(lines: Seq<Seq<char>>, gens: Seq<Seq<char>>) -> Seq<char>
    decreases lines.len(),
{
    if lines.len() == 0 {
        Seq::empty()
    } else if generated_include_marker().is_prefix_of(lines.last()) {
        with_generated_each(lines.drop_last(), gens.drop_last()) + gens.last()
    } else {
        with_generated_each(lines.drop_last(), gens) + lines.last()
    }
}

/// Number of lines that start with the include marker.
pub open spec fn marker_lines(lines: Seq<Seq<char>>) -> nat
    decreases lines.len(),
{
    if lines.len() == 0 {
        0
    } else if generated_include_marker().is_prefix_of(lines.last()) {
        marker_lines(lines.drop_last()) + 1
    } else {
        marker_lines(lines.drop_last())
    }
}

/// The lines of `code`, as `text_lines` splits it, by their bounds in `code`, each with
/// whether it starts with the include marker.
fn line_segments(code: &str) -> (r: Vec<LineSegment>)
    ensures
        segments_valid(code@, r@),
        segment_lines(code@, r@) == text_lines(code@),
{
    let marker = "#include \"sierra_generated.h\"";
    proof {
        reveal_strlit("#include \"sierra_generated.h\"");
    }
    assert(marker@ =~= generated_include_marker());
    let marker_len = marker.unicode_len();
    let mut chars: Vec<char> = Vec::new();
    proof {
        vstd::string::axiom_spec_iter(code);
    }
    for c in it: code.chars()
        invariant
            it.seq() == code@,
            chars@ == code@.take(it.index() as int),
    {
        chars.push(c);
        assert(chars@ =~= code@.take(it.index() + 1));
    }
    assert(chars@ =~= code@);
    let n = chars.len();
    let mut segs: Vec<LineSegment> = Vec::new();
    let mut start: usize = 0;
    assert(code@.skip(0) =~= code@);
    while start < n
        invariant
            start <= n,
            n == code@.len(),
            chars@ == code@,
            marker@ == generated_include_marker(),
            marker_len == marker@.len(),
            segments_valid(code@, segs@),
            segment_lines(code@, segs@) + text_lines(code@.skip(start as int)) == text_lines(code@),
        decreases n - start,
    {
        let ghost rest = code@.skip(start as int);
        let mut k = start;
        while k < n && chars[k] != '\n'
            invariant
                start <= k <= n,
                n == chars@.len(),
                forall|m: int| start <= m < k ==> chars@[m] != '\n',
            decreases n - k,
        {
            k = k + 1;
        }
        proof {
            assert forall|m: int| 0 <= m < k - start implies rest[m] != '\n' by {
                assert(rest[m] == chars@[start + m]);
            }
            if k < n {
                assert(rest[k - start] == chars@[k as int]);
            }
            lemma_first_line_feed(rest, k - start);
        }
        let terminated = k < n;
        let mut end = k;
        if terminated && end > start && chars[end - 1] == '\r' {
            end = end - 1;
        }
        let ghost line = code@.subrange(start as int, end as int);
        proof {
            let raw = rest.take(k - start);
            assert(raw =~= code@.subrange(start as int, k as int));
            if terminated {
                if raw.len() > 0 && raw.last() == '\r' {
                    assert(raw.drop_last() =~= line);
                } else {
                    assert(raw =~= line);
                }
                assert(rest.skip(k - start + 1) =~= code@.skip(k + 1));
            } else {
                assert(rest =~= line);
            }
        }
        let mut is_include = end - start >= marker_len;
        let mut j: usize = 0;
        while is_include && j < marker_len
            invariant
                j <= marker_len,
                marker_len == marker@.len(),
                start <= end <= n,
                n == chars@.len(),
                is_include ==> end - start >= marker_len,
                is_include ==> forall|m: int| 0 <= m < j ==> chars@[start + m] == marker@[m],
                !is_include ==> !generated_include_marker().is_prefix_of(code@.subrange(start as int, end as int)),
                chars@ == code@,
                marker@ == generated_include_marker(),
            decreases marker_len - j,
        {
            if chars[start + j] != marker.get_char(j) {
                is_include = false;
                proof {
                    let l = code@.subrange(start as int, end as int);
                    assert(l[j as int] == chars@[start + j]);
                }
            }
            j = j + 1;
        }
        proof {
            let l = code@.subrange(start as int, end as int);
            if is_include {
                assert(marker@ =~= l.subrange(0, marker@.len() as int)) by {
                    assert forall|m: int| 0 <= m < marker@.len() implies marker@[m] == l[m] by {
                        assert(l[m] == chars@[start + m]);
                    }
                }
            }
        }
        let ghost before = segs@;
        segs.push(LineSegment { start, end, is_include });
        proof {
            assert(segment_lines(code@, segs@) =~= segment_lines(code@, before).push(line));
            assert forall|m: int| 0 <= m < segs@.len() implies #[trigger] segment_ok(code@, segs@[m]) by {
                if m < before.len() {
                    assert(segs@[m] == before[m]);
                }
            }
            let lines = text_lines(rest);
            let next = if terminated { code@.skip(k + 1) } else { code@.skip(n as int) };
            if terminated {
                assert(lines == seq![line] + text_lines(next));
            } else {
                assert(lines == seq![line]);
                assert(next =~= Seq::<char>::empty());
                assert(seq![line].drop_first() =~= Seq::<Seq<char>>::empty());
            }
            assert((seq![line] + text_lines(next)).drop_first() =~= text_lines(next));
            assert(segment_lines(code@, before).push(line) + text_lines(next) =~= segment_lines(code@, before) + (seq![line] + text_lines(next)));
        }
        start = if terminated {
            k + 1
        } else {
            n
        };
    }
    assert(code@.skip(n as int) =~= Seq::<char>::empty());
    assert(text_lines(code@.skip(n as int)) =~= Seq::<Seq<char>>::empty());
    assert(segment_lines(code@, segs@) + Seq::<Seq<char>>::empty() =~= segment_lines(code@, segs@));
    segs
}

/// `code` with every line that starts with `#include "sierra_generated.h"` replaced by
/// `generated`, and the lines joined without separators.
pub fn include_generated(code: &str, generated: &str) -> (r: String)
    ensures
        r@ == with_generated(text_lines(code@), generated@),
{
    let segs = line_segments(code);
    let ghost lines = text_lines(code@);
    let mut out = String::new();
    let mut i: usize = 0;
    while i < segs.len()
        invariant
            i <= segs@.len(),
            segments_valid(code@, segs@),
            segment_lines(code@, segs@) == lines,
            lines == text_lines(code@),
            out@ == with_generated(lines.take(i as int), generated@),
        decreases segs@.len() - i,
    {
        let seg = &segs[i];
        proof {
            assert(segment_ok(code@, segs@[i as int]));
            assert(lines[i as int] == code@.subrange(seg.start as int, seg.end as int));
            lemma_with_generated_push(lines.take(i as int), lines[i as int], generated@);
            assert(lines.take(i as int).push(lines[i as int]) =~= lines.take(i + 1));
        }
        if seg.is_include {
            out.append(generated);
        } else {
            out.append(code.substring_char(seg.start, seg.end));
        }
        i = i + 1;
    }
    assert(lines.take(i as int) =~= lines);
    out
}

/// Provides shader input
pub trait ShaderInputDecl {
    /// Declarations of the shader input for a stage.
    fn glsl(stage: ShaderStage) -> String;

    /// `code` with the line `#include "sierra_generated.h"` replaced by the declarations
    /// of the shader input for `stage`, lines joined without separators.
    fn include_glsl(stage: ShaderStage, code: &str) -> (r: String)
        default_ensures
            exists|gens: Seq<String>|
                {
                    &&& gens.len() == marker_lines(text_lines(code@))
                    &&& forall|k: int| 0 <= k < gens.len() ==> call_ensures(Self::glsl, (stage,), #[trigger] gens[k])
                    &&& r@ == with_generated_each(text_lines(code@), gens.map_values(|g: String| g@))
                },
    {
        let segs = line_segments(code);
        let ghost lines = text_lines(code@);
        let ghost mut gens: Seq<String> = Seq::empty();
        let mut out = String::new();
        let mut i: usize = 0;
        while i < segs.len()
            invariant
                i <= segs@.len(),
                segments_valid(code@, segs@),
                segment_lines(code@, segs@) == lines,
                lines == text_lines(code@),
                gens.len() == marker_lines(lines.take(i as int)),
                forall|k: int| 0 <= k < gens.len() ==> call_ensures(Self::glsl, (stage,), #[trigger] gens[k]),
                out@ == with_generated_each(lines.take(i as int), gens.map_values(|g: String| g@)),
            decreases segs@.len() - i,
        {
            let seg = &segs[i];
            let ghost prev = gens;
            proof {
                assert(segment_ok(code@, segs@[i as int]));
                assert(lines[i as int] == code@.subrange(seg.start as int, seg.end as int));
                assert(lines.take(i + 1).drop_last() =~= lines.take(i as int));
                assert(lines.take(i + 1).last() == lines[i as int]);
            }
            if seg.is_include {
                let generated = Self::glsl(stage);
                proof {
                    gens = gens.push(generated);
                    assert(gens.map_values(|g: String| g@).drop_last() =~= prev.map_values(|g: String| g@));
                    assert(gens.drop_last() =~= prev);
                }
                out.append(generated.as_str());
            } else {
                out.append(code.substring_char(seg.start, seg.end));
            }
            i = i + 1;
        }
        assert(lines.take(i as int) =~= lines);
        out
    }
}

#[verifier::external_type_specification]
#[verifier::external_body]
pub struct ExTypeId(std::any::TypeId);

/// Calls `std::any::TypeId::of`. Nothing is stated of the identifier: it is only
/// compared with others of the same build.
#[verifier::external_body]
fn type_id_of<T: ?Sized + 'static>() -> (r: TypeId) {
    TypeId::of::<T>()
}

/// Compares two type identifiers with `==` of `std::any::TypeId`, which holds exactly for
/// identifiers of the same type.
#[verifier::external_body]
fn same_type_id(a: &TypeId, b: &TypeId) -> (r: bool)
    ensures
        r == (*a == *b),
{
    a == b
}

/// The one-character string of the decimal digit `d`.
fn digit_str(d: usize) -> (r: &'static str)
    requires
        d < 10,
    ensures
        r@ == seq![digit_char(d as nat)],
{
    proof {
        reveal_strlit("0");
        reveal_strlit("1");
        reveal_strlit("2");
        reveal_strlit("3");
        reveal_strlit("4");
        reveal_strlit("5");
        reveal_strlit("6");
        reveal_strlit("7");
        reveal_strlit("8");
        reveal_strlit("9");
    }
    if d == 0 {
        "0"
    } else if d == 1 {
        "1"
    } else if d == 2 {
        "2"
    } else if d == 3 {
        "3"
    } else if d == 4 {
        "4"
    } else if d == 5 {
        "5"
    } else if d == 6 {
        "6"
    } else if d == 7 {
        "7"
    } else if d == 8 {
        "8"
    } else {
        "9"
    }
}

/// Appends the decimal digits of `n` to `out`.
fn write_decimal(out: &mut String, n: usize)
    ensures
        final(out)@ == old(out)@ + decimal_digits(n as nat),
    decreases n,
{
    if n >= 10 {
        write_decimal(out, n / 10);
    }
    out.append(digit_str(n % 10));
    assert(out@ =~= old(out)@ + decimal_digits(n as nat));
}

/// The decimal digits of `n`, without leading zeros (`0` for zero).
pub open spec fn decimal_digits(n: nat) -> Seq<char>
    decreases n,
{
    if n < 10 {
        seq![digit_char(n)]
    } else {
        decimal_digits(n / 10) + seq![digit_char(n % 10)]
    }
}

/// The character of a decimal digit.
pub open spec fn digit_char(d: nat) -> char {
    if d == 0 { '0' } else if d == 1 { '1' } else if d == 2 { '2' } else if d == 3 { '3' } else if d
        == 4 { '4' } else if d == 5 { '5' } else if d == 6 { '6' } else if d == 7 { '7' } else if d
        == 8 { '8' } else { '9' }
}

/// `after` extends `before`: recorded types and declarations are kept, new ones follow.
pub open spec fn only_appended(before: GlslTypeContext, after: GlslTypeContext) -> bool {
    &&& after.generated().len() >= before.generated().len()
    &&& forall|i: int| 0 <= i < before.generated().len() ==> #[trigger] after.generated()[i] == before.generated()[i]
    &&& after.spec_code().len() >= before.spec_code().len()
    &&& forall|i: int| 0 <= i < before.spec_code().len() ==> #[trigger] after.spec_code()[i] == before.spec_code()[i]
}

/// `id` is an identifier that `std::any::TypeId::of` gives for `T`.
pub closed spec fn is_type_id_of<T: GlslType>(id: TypeId) -> bool {
    call_ensures(type_id_of::<T>, (), id)
}

/// Collects the GLSL declarations of types and of the types they depend on, each once.
pub struct GlslTypeContext {
    /// Types already declared, in the order they were added. A list rather than a hash
    /// set: hash sets are specified only for keys with a known hashing model, which type
    /// identifiers lack, so not even a first insertion into an empty set could be shown
    /// to add the type.
    generated: Vec<TypeId>,
    code: String,
}

impl GlslTypeContext {
    /// Declarations collected so far.
    pub closed spec fn spec_code(&self) -> Seq<char> {
        self.code@
    }

    /// Types whose declarations were collected.
    pub closed spec fn generated(&self) -> Seq<TypeId> {
        self.generated@
    }

    /// A context without declarations.
    pub fn new() -> (r: Self)
        ensures
            r.spec_code() == Seq::<char>::empty(),
            r.generated() == Seq::<TypeId>::empty(),
    {
        GlslTypeContext { generated: Vec::new(), code: String::new() }
    }

    /// Adds the declaration of `T`, after those of the types it depends on, unless it
    /// was added before. Declarations and types are only appended.
    pub fn add<T: GlslType, U: Into<T>>(&mut self)
        ensures
            only_appended(*old(self), *final(self)),
            exists|id: TypeId|
                #![trigger is_type_id_of::<T>(id)]
                is_type_id_of::<T>(id) && if old(self).generated().contains(id) {
                    *final(self) == *old(self)
                } else {
                    exists|c: &mut GlslTypeContext, def: String|
                        #![trigger call_ensures(T::deps, (c,), ()), call_ensures(T::def, (), def)]
                        {
                            &&& (*c).generated() == old(self).generated().push(id)
                            &&& (*c).spec_code() == old(self).spec_code()
                            &&& call_ensures(T::deps, (c,), ())
                            &&& call_ensures(T::def, (), def)
                            &&& final(self).generated() == final(c).generated()
                            &&& final(self).spec_code() == final(c).spec_code() + seq!['\n'] + def@
                        }
                },
    {
        let id = type_id_of::<T>();
        let mut i: usize = 0;
        while i < self.generated.len()
            invariant
                i <= self.generated@.len(),
                *self == *old(self),
                forall|j: int| 0 <= j < i ==> self.generated@[j] != id,
                is_type_id_of::<T>(id),
            decreases self.generated@.len() - i,
        {
            if same_type_id(&self.generated[i], &id) {
                assert(old(self).generated().contains(id));
                assert(is_type_id_of::<T>(id));
                return;
            }
            i = i + 1;
        }
        self.generated.push(id);
        let ghost pushed = *self;
        T::deps(self);
        let ghost mid = *self;
        assert(mid.generated@.len() >= pushed.generated@.len());
        proof {
            reveal_strlit("\n");
        }
        self.code.append("\n");
        let def = T::def();
        self.code.append(def.as_str());
        assert(forall|i: int| 0 <= i < mid.code@.len() ==> #[trigger] self.code@[i] == mid.code@[i]);
        assert(self.code@ =~= mid.code@ + seq!['\n'] + def@);
        assert(!old(self).generated().contains(id));
        assert(is_type_id_of::<T>(id));
    }

    /// The collected declarations.
    pub fn code(self) -> (r: String)
        ensures
            r@ == self.spec_code(),
    {
        self.code
    }
}

/// Generates declarations for struct in glsl shaders.
pub trait GlslType: 'static {
    /// GLSL name of the type.
    fn name() -> &'static str;

    /// What follows the name of a member of this type, such as an array size.
    fn suffix() -> (r: String)
        default_ensures
            r@ == Seq::<char>::empty(),
    {
        String::new()
    }

    /// Adds the declarations of the types this one depends on.
    fn deps(ctx: &mut GlslTypeContext)
        ensures
            only_appended(*old(ctx), *final(ctx)),
        default_ensures
            *final(ctx) == *old(ctx),
    {
    }

    /// The declaration of the type itself.
    fn def() -> (r: String)
        default_ensures
            r@ == Seq::<char>::empty(),
    {
        String::new()
    }
}

impl GlslType for i32 {
    fn name() -> (r: &'static str)
        ensures
            r@ == seq!['i', 'n', 't'],
    {
        proof {
            reveal_strlit("int");
        }
        "int"
    }
}

impl GlslType for u32 {
    fn name() -> (r: &'static str)
        ensures
            r@ == seq!['u', 'i', 'n', 't'],
    {
        proof {
            reveal_strlit("uint");
        }
        "uint"
    }
}

impl GlslType for i16 {
    fn name() -> (r: &'static str)
        ensures
            r@ == seq!['s', 'h', 'o', 'r', 't'],
    {
        proof {
            reveal_strlit("short");
        }
        "short"
    }
}

impl GlslType for u16 {
    fn name() -> (r: &'static str)
        ensures
            r@ == seq!['u', 's', 'h', 'o', 'r', 't'],
    {
        proof {
            reveal_strlit("ushort");
        }
        "ushort"
    }
}

impl GlslType for i8 {
    fn name() -> (r: &'static str)
        ensures
            r@ == seq!['c', 'h', 'a', 'r'],
    {
        proof {
            reveal_strlit("char");
        }
        "char"
    }
}

impl GlslType for bool {
    fn name() -> (r: &'static str)
        ensures
            r@ == seq!['b', 'o', 'o', 'l'],
    {
        proof {
            reveal_strlit("bool");
        }
        "bool"
    }
}

impl<T: GlslType> GlslType for [T] {
    fn name() -> (r: &'static str)
        ensures
            call_ensures(T::name, (), r),
    {
        T::name()
    }

    fn suffix() -> (r: String)
        ensures
            r@ == seq!['[', ']'],
    {
        proof {
            reveal_strlit("[]");
        }
        "[]".to_owned()
    }

    fn deps(ctx: &mut GlslTypeContext)
        ensures
            exists|c: &mut GlslTypeContext|
                #![trigger call_ensures(T::deps, (c,), ())]
                *c == *old(ctx) && *final(c) == *final(ctx) && call_ensures(T::deps, (c,), ()),
    {
        T::deps(ctx)
    }

    fn def() -> (r: String)
        ensures
            r@ == Seq::<char>::empty(),
    {
        String::new()
    }
}

impl<T: GlslType, const N: usize> GlslType for [T; N] {
    fn name() -> (r: &'static str)
        ensures
            call_ensures(T::name, (), r),
    {
        T::name()
    }

    fn suffix() -> (r: String)
        ensures
            r@ == seq!['['] + decimal_digits(N as nat) + seq![']'],
    {
        proof {
            reveal_strlit("[");
            reveal_strlit("]");
        }
        let mut r = String::new();
        r.append("[");
        write_decimal(&mut r, N);
        r.append("]");
        assert(r@ =~= seq!['['] + decimal_digits(N as nat) + seq![']']);
        r
    }

    fn deps(ctx: &mut GlslTypeContext)
        ensures
            exists|c: &mut GlslTypeContext|
                #![trigger call_ensures(T::deps, (c,), ())]
                *c == *old(ctx) && *final(c) == *final(ctx) && call_ensures(T::deps, (c,), ()),
    {
        T::deps(ctx)
    }

    fn def() -> (r: String)
        ensures
            r@ == Seq::<char>::empty(),
    {
        String::new()
    }
}

} // verus!
