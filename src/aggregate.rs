use vstd::prelude::*;

verus! {

/// One line of the aggregate header: `#include <mbedtls/NAME>` and a newline.
pub open spec fn include_line(name: Seq<char>) -> Seq<char> {
    "#include <mbedtls/"@ + name + ">\n"@
}

/// The aggregate header: the include line of every name, in the given order.
pub open spec fn aggregate_text(names: Seq<Seq<char>>) -> Seq<char>
    decreases names.len(),
{
    if names.len() == 0 {
        Seq::empty()
    } else {
        aggregate_text(names.drop_last()) + include_line(names.last())
    }
}

/// Builds the include line for one header name.
pub fn include_directive(name: &str) -> (r: String)
    ensures
        r@ == include_line(name@),
{
    let mut line = String::from_str("#include <mbedtls/");
    line.append(name);
    line.append(">\n");
    line
}

/// Builds the aggregate header for the given header names.
pub fn aggregate_header(headers: &Vec<String>) -> (r: String)
    ensures
        r@ == aggregate_text(headers.deep_view()),
{
    let mut text = String::new();
    let mut i: usize = 0;
    while i < headers.len()
        invariant
            i <= headers.len(),
            text@ == aggregate_text(headers.deep_view().take(i as int)),
        decreases headers.len() - i,
    {
        let line = include_directive(headers[i].as_str());
        text.append(line.as_str());
        proof {
            assert(headers.deep_view().take(i + 1).drop_last() =~= headers.deep_view().take(
                i as int,
            ));
        }
        i += 1;
    }
    proof {
        assert(headers.deep_view().take(i as int) =~= headers.deep_view());
    }
    text
}

/// Reads a text as newline-terminated lines: the completed lines, in order,
/// and what follows the last newline.
pub open spec fn split_lines(t: Seq<char>) -> (Seq<Seq<char>>, Seq<char>)
    decreases t.len(),
{
    if t.len() == 0 {
        (Seq::empty(), Seq::empty())
    } else {
        let (done, open) = split_lines(t.drop_last());
        if t.last() == '\n' {
            (done.push(open), Seq::empty())
        } else {
            (done, open.push(t.last()))
        }
    }
}

/// The text of an include line without its newline.
pub open spec fn include_body(name: Seq<char>) -> Seq<char> {
    "#include <mbedtls/"@ + name + ">"@
}

proof fn lemma_split_append(a: Seq<char>, b: Seq<char>)
    requires
        split_lines(a).1.len() == 0,
    ensures
        split_lines(a + b) == (split_lines(a).0 + split_lines(b).0, split_lines(b).1),
    decreases b.len(),
{
    if b.len() == 0 {
        assert(a + b =~= a);
        assert(split_lines(a).0 + split_lines(b).0 =~= split_lines(a).0);
    } else {
        assert((a + b).drop_last() =~= a + b.drop_last());
        lemma_split_append(a, b.drop_last());
        if b.last() == '\n' {
            assert((split_lines(a).0 + split_lines(b.drop_last()).0).push(
                split_lines(b.drop_last()).1,
            ) =~= split_lines(a).0 + split_lines(b.drop_last()).0.push(
                split_lines(b.drop_last()).1,
            ));
        }
    }
}

proof fn lemma_split_no_newline(t: Seq<char>)
    requires
        !t.contains('\n'),
    ensures
        split_lines(t) == (Seq::<Seq<char>>::empty(), t),
    decreases t.len(),
{
    if t.len() > 0 {
        assert(!t.drop_last().contains('\n')) by {
            if t.drop_last().contains('\n') {
                let k = choose|k: int| 0 <= k < t.drop_last().len() && t.drop_last()[k] == '\n';
                assert(t[k] == '\n');
            }
        }
        lemma_split_no_newline(t.drop_last());
        assert(t[t.len() - 1] != '\n');
        assert(t.drop_last().push(t.last()) =~= t);
    }
}

proof fn lemma_split_include_line(name: Seq<char>)
    requires
        !name.contains('\n'),
    ensures
        split_lines(include_line(name)) == (seq![include_body(name)], Seq::<char>::empty()),
{
    reveal_strlit("#include <mbedtls/");
    reveal_strlit(">\n");
    reveal_strlit(">");
    let body = include_body(name);
    assert(!body.contains('\n')) by {
        if body.contains('\n') {
            let k = choose|k: int| 0 <= k < body.len() && body[k] == '\n';
            if k >= 18 && k < 18 + name.len() {
                assert(name[k - 18] == '\n');
            }
        }
    }
    lemma_split_no_newline(body);
    assert(include_line(name).drop_last() =~= body);
    assert(seq![body] =~= Seq::<Seq<char>>::empty().push(body));
}

/// When no header name holds a newline, the aggregate header consists of
/// exactly one line per name, in the order of the names, each of them the
/// include directive of its name, and nothing after the last newline.
pub proof fn lemma_aggregate_lines(names: Seq<Seq<char>>)
    requires
        forall|i: int| 0 <= i < names.len() ==> !(#[trigger] names[i]).contains('\n'),
    ensures
        split_lines(aggregate_text(names)).0 == names.map_values(|n: Seq<char>| include_body(n)),
        split_lines(aggregate_text(names)).0.len() == names.len(),
        split_lines(aggregate_text(names)).1.len() == 0,
    decreases names.len(),
{
    if names.len() > 0 {
        let init = names.drop_last();
        assert forall|i: int| 0 <= i < init.len() implies !(#[trigger] init[i]).contains('\n') by {
            assert(init[i] == names[i]);
        }
        lemma_aggregate_lines(init);
        assert(!names.last().contains('\n')) by {
            assert(names.last() == names[names.len() - 1]);
        }
        lemma_split_include_line(names.last());
        lemma_split_append(aggregate_text(init), include_line(names.last()));
        assert(init.map_values(|n: Seq<char>| include_body(n)) + seq![include_body(names.last())]
            =~= names.map_values(|n: Seq<char>| include_body(n)));
    }
}

} // verus!
