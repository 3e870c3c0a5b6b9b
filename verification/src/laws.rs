use crate::codec::{
    byte_cells, cells_spec, char_cells, complex_cells, decode_spec, encode_spec, is_dimension,
    is_number, is_octet,
    is_pair, kind_box, kind_char, kind_name, label_json, label_of, lemma_kinds_differ, member,
    member_index, name_data, name_keys, name_kind, name_label, name_shape, number_cells,
    pair_json, pair_of, shape_json, shape_of, DecodeError,
};
use crate::backend::{captured_after, CustomBackend, Printed};
use crate::json::JsonView;
use crate::runtime::UiuaExecutionFailure;
use crate::value::{shape_product, Cells, Tagged};
use vstd::prelude::*;

verus! {

/// The five member names are five different texts.
pub proof fn lemma_names_differ()
    ensures
        name_data() != name_shape(),
        name_data() != name_label(),
        name_data() != name_keys(),
        name_data() != name_kind(),
        name_shape() != name_label(),
        name_shape() != name_keys(),
        name_shape() != name_kind(),
        name_label() != name_keys(),
        name_label() != name_kind(),
        name_keys() != name_kind(),
{
    reveal_strlit("data");
    reveal_strlit("shape");
    reveal_strlit("label");
    reveal_strlit("keys");
    reveal_strlit("type");
    assert(name_data().len() == 4 && name_data()[0] == 'd');
    assert(name_shape().len() == 5 && name_shape()[0] == 's');
    assert(name_label().len() == 5 && name_label()[0] == 'l');
    assert(name_keys().len() == 4 && name_keys()[0] == 'k');
    assert(name_kind().len() == 4 && name_kind()[0] == 't');
}

/// The members of an encoded value are found under their names.
pub proof fn lemma_encoded_members(t: Tagged)
    ensures
        encode_spec(t) is Object,
        member(encode_spec(t)->Object_0, name_data()) == Some(encode_spec(t)->Object_0[0].value),
        member(encode_spec(t)->Object_0, name_shape()) == Some(shape_json(t.shape)),
        member(encode_spec(t)->Object_0, name_label()) == Some(label_json(t.label)),
        member_index(encode_spec(t)->Object_0, name_keys(), 0) == 3,
        encode_spec(t)->Object_0.len() == 5,
        encode_spec(t)->Object_0[3].value == match t.keys {
            Some(k) => encode_spec(*k),
            None => JsonView::Null,
        },
        member(encode_spec(t)->Object_0, name_kind()) == Some(JsonView::Text(kind_name(t.cells))),
{
    lemma_names_differ();
    let fields = encode_spec(t)->Object_0;
    assert(fields.len() == 5);
    assert(fields[0].name == name_data());
    assert(fields[1].name == name_shape());
    assert(fields[2].name == name_label());
    assert(fields[3].name == name_keys());
    assert(fields[4].name == name_kind());
    assert(member_index(fields, name_kind(), 4) == 4);
    assert(member_index(fields, name_kind(), 3) == 4);
    assert(member_index(fields, name_kind(), 2) == 4);
    assert(member_index(fields, name_kind(), 1) == 4);
    assert(member_index(fields, name_keys(), 3) == 3);
    assert(member_index(fields, name_keys(), 2) == 3);
    assert(member_index(fields, name_keys(), 1) == 3);
    assert(member_index(fields, name_label(), 2) == 2);
    assert(member_index(fields, name_label(), 1) == 2);
    assert(member_index(fields, name_shape(), 1) == 1);
}

/// The wire form of a shape reads back as that shape.
pub proof fn lemma_shape_round_trip(shape: Seq<usize>)
    ensures
        shape_of(shape_json(shape)) == Some(shape),
{
    let items = shape_json(shape)->Array_0;
    assert forall|i: int| 0 <= i < items.len() implies is_dimension(#[trigger] items[i]) by {
        assert(shape[i] as u64 <= usize::MAX);
    }
    assert(shape_of(shape_json(shape))->0 =~= shape);
}

/// The cells of an encoded value read back as they were.
pub proof fn lemma_cells_round_trip(t: Tagged)
    requires
        t.wf(),
    ensures
        cells_spec(kind_name(t.cells), encode_spec(t)->Object_0[0].value) == Ok::<
            Cells,
            DecodeError,
        >(t.cells),
    decreases t, 0int,
{
    lemma_kinds_differ();
    let data = encode_spec(t)->Object_0[0].value;
    match t.cells {
        Cells::Byte(s) => {
            let items = data->Array_0;
            assert forall|i: int| 0 <= i < items.len() implies is_octet(#[trigger] items[i]) by {}
            assert(byte_cells(data)->0 =~= s);
        },
        Cells::Num(s) => {
            let items = data->Array_0;
            assert forall|i: int| 0 <= i < items.len() implies is_number(#[trigger] items[i]) by {}
            assert(number_cells(data)->0 =~= s);
        },
        Cells::Char(s) => {
            assert(char_cells(data) == Some(s));
        },
        Cells::Complex(s) => {
            let items = data->Array_0;
            assert forall|i: int| 0 <= i < items.len() implies is_pair(#[trigger] items[i])
                && pair_of(items[i]) == s[i] by {
                assert(items[i] == pair_json(s[i]));
                assert(pair_json(s[i])->Array_0.len() == 2);
            }
            assert(complex_cells(data)->0 =~= s);
        },
        Cells::Box(s) => {
            let items = data->Array_0;
            assert(items.len() == s.len());
            assert forall|i: int| 0 <= i < items.len() implies decode_spec(#[trigger] items[i])
                == Ok::<Tagged, DecodeError>(s[i]) by {
                assert(s[i].wf());
                assert(items[i] == encode_spec(s[i]));
                lemma_round_trip(s[i]);
            }
            assert(cells_spec(kind_box(), data) is Ok);
            assert(cells_spec(kind_box(), data)->Ok_0->Box_0 =~= s);
        },
    }
}

/// Round trip: a well-formed value of any kind is what decoding makes of
/// its encoding, with its label, keys, shape and cells, at every depth of
/// boxing.
pub proof fn lemma_round_trip(t: Tagged)
    requires
        t.wf(),
    ensures
        decode_spec(encode_spec(t)) == Ok::<Tagged, DecodeError>(t),
    decreases t, 1int,
{
    lemma_encoded_members(t);
    lemma_shape_round_trip(t.shape);
    lemma_cells_round_trip(t);
    let fields = encode_spec(t)->Object_0;
    match t.keys {
        Some(k) => {
            lemma_round_trip(*k);
            lemma_encoded_members(*k);
        },
        None => {},
    }
    assert(label_of(Some(label_json(t.label))) == Some(t.label));
}

/// Shape invariant: in whatever decodes, the shape accounts for every cell,
/// at every depth of boxing and in the keys.
pub proof fn lemma_decoded_wf(j: JsonView)
    ensures
        decode_spec(j) is Ok ==> decode_spec(j)->Ok_0.wf(),
    decreases j,
{
    if decode_spec(j) is Ok {
        let fields = j->Object_0;
        let t = decode_spec(j)->Ok_0;
        let ki = member_index(fields, name_keys(), 0);
        if 0 <= ki < fields.len() && !(fields[ki].value is Null) {
            lemma_decoded_wf(fields[ki].value);
        }
        let kind = member(fields, name_kind())->0->Text_0;
        let di = member_index(fields, name_data(), 0);
        let data = fields[di].value;
        assert(cells_spec(kind, data) == Ok::<Cells, DecodeError>(t.cells));
        match t.cells {
            Cells::Box(s) => {
                lemma_kinds_differ();
                let items = data->Array_0;
                assert forall|i: int| 0 <= i < s.len() implies (#[trigger] s[i]).wf() by {
                    assert(s[i] == decode_spec(items[i])->Ok_0);
                    lemma_decoded_wf(items[i]);
                }
            },
            _ => {},
        }
    }
}

/// Shape invariant: a wire value whose shape does not account for the cells
/// that its data hold is rejected.
pub proof fn lemma_shape_mismatch_rejected(j: JsonView)
    requires
        j is Object,
        member(j->Object_0, name_kind()) matches Some(JsonView::Text(kind)) && member(
            j->Object_0,
            name_data(),
        ) matches Some(data) && member(j->Object_0, name_shape()) matches Some(sh) && shape_of(
            sh,
        ) matches Some(shape) && cells_spec(kind, data) matches Ok(cells) && shape_product(shape)
            != cells.len(),
    ensures
        decode_spec(j) is Err,
{
}

/// Character decode: a `char` value whose text has another number of code
/// points than its shape asks for is rejected; one that decodes has one cell
/// for each code point, in order.
pub proof fn lemma_char_decode(j: JsonView, text: Seq<char>)
    requires
        j is Object,
        member(j->Object_0, name_kind()) == Some(JsonView::Text(kind_char())),
        member(j->Object_0, name_data()) == Some(JsonView::Text(text)),
    ensures
        decode_spec(j) matches Ok(t) ==> t.cells == Cells::Char(text) && shape_product(t.shape)
            == text.len(),
        member(j->Object_0, name_shape()) matches Some(sh) && shape_of(sh) matches Some(shape)
            && shape_product(shape) != text.len() ==> decode_spec(j) is Err,
{
    lemma_kinds_differ();
    assert(cells_spec(kind_char(), JsonView::Text(text)) == Ok::<Cells, DecodeError>(
        Cells::Char(text),
    ));
}

/// What a backend holds only grows: what the channels held after the first
/// `k` prints is at the front of what they hold after all of them.
pub proof fn lemma_captured_grows(start: (Seq<u8>, Seq<u8>), prints: Seq<Printed>, k: int)
    requires
        0 <= k <= prints.len(),
    ensures
        captured_after(start, prints.take(k)).0.is_prefix_of(captured_after(start, prints).0),
        captured_after(start, prints.take(k)).1.is_prefix_of(captured_after(start, prints).1),
    decreases prints.len(),
{
    if k == prints.len() {
        assert(prints.take(k) =~= prints);
    } else {
        lemma_captured_grows(start, prints.drop_last(), k);
        assert(prints.drop_last().take(k) =~= prints.take(k));
    }
}

/// Prints made one after another are the prints of both runs of them, in
/// their order.
pub proof fn lemma_captured_joins(start: (Seq<u8>, Seq<u8>), first: Seq<Printed>, rest: Seq<Printed>)
    ensures
        captured_after(captured_after(start, first), rest) == captured_after(start, first + rest),
    decreases rest.len(),
{
    if rest.len() == 0 {
        assert(first + rest =~= first);
    } else {
        lemma_captured_joins(start, first, rest.drop_last());
        assert((first + rest).drop_last() =~= first + rest.drop_last());
        assert((first + rest).last() == rest.last());
    }
}

/// Capture ordering: where a run prints and then fails, what was printed
/// before the failure is handed back with the error. `before` is what the
/// backend held when the run began, `prints` are the prints of the run in
/// their order, `backend` is the backend when the run has failed, and
/// `failure` is what is made of the failure with that backend: it holds, on
/// each channel, at least what the first `k` prints had left there, and the
/// bytes of a print to standard output right behind what was there before
/// that print.
pub proof fn lemma_output_kept_with_failure(
    before: CustomBackend,
    prints: Seq<Printed>,
    backend: CustomBackend,
    failure: UiuaExecutionFailure,
    k: int,
)
    requires
        0 <= k < prints.len(),
        (backend.stdout@, backend.stderr@) == captured_after(
            (before.stdout@, before.stderr@),
            prints,
        ),
        failure.stdout@ == backend.stdout@,
        failure.stderr@ == backend.stderr@,
    ensures
        captured_after((before.stdout@, before.stderr@), prints.take(k)).0.is_prefix_of(
            failure.stdout@,
        ),
        captured_after((before.stdout@, before.stderr@), prints.take(k)).1.is_prefix_of(
            failure.stderr@,
        ),
        prints[k] matches Printed::Stdout(text) ==> (captured_after(
            (before.stdout@, before.stderr@),
            prints.take(k),
        ).0 + text).is_prefix_of(failure.stdout@) && failure.stdout@.len() >= text.len(),
{
    let start = (before.stdout@, before.stderr@);
    lemma_captured_grows(start, prints, k);
    lemma_captured_grows(start, prints, k + 1);
    assert(prints.take(k + 1).drop_last() =~= prints.take(k));
    assert(prints.take(k + 1).last() == prints[k]);
}

} // verus!
