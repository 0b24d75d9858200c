//! The pixel formats that a user can choose from.

use vstd::prelude::*;

use crate::text;

verus! {

/// Whether a pixel format is kept from the user: it lives on a device, or has no use here.
pub open spec fn hidden_format(format: Seq<char>) -> bool {
    ||| format == "CUDA"@
    ||| format == "D3D11"@
    ||| format == "BGRZ"@
    ||| format == "RGBZ"@
    ||| format == "BGRA"@
    ||| format == "UYVY422"@
    ||| format == "VIDEOTOOLBOX"@
    ||| format == "DXVA2"@
    ||| format == "MEDIACODEC"@
    ||| format == "VULKAN"@
    ||| format == "OPENCL"@
    ||| format == "QSV"@
}

/// The formats of a list that can be chosen.
pub open spec fn shown_formats(formats: Seq<Seq<char>>) -> Seq<Seq<char>> {
    formats.filter(|format: Seq<char>| !hidden_format(format))
}

/// The comma-separated list `supported` without the hidden formats.
pub open spec fn offered(supported: Seq<char>) -> Seq<char> {
    text::joined(shown_formats(text::split_at(supported, ',')), ","@)
}

/// What the row of a job shows that needs another pixel format.
pub open spec fn conversion_request(format: Seq<char>, supported: Seq<char>) -> Seq<char> {
    "convert_format:"@ + format + ";"@ + supported
}

/// Filtering keeps only formats of the list that are not hidden.
proof fn lemma_shown_formats(formats: Seq<Seq<char>>)
    ensures
        forall|i: int|
            0 <= i < shown_formats(formats).len() ==> {
                &&& !hidden_format(#[trigger] shown_formats(formats)[i])
                &&& formats.contains(shown_formats(formats)[i])
            },
    decreases formats.len(),
{
    reveal(Seq::filter);
    if formats.len() > 0 {
        let fewer = formats.drop_last();
        lemma_shown_formats(fewer);
        assert forall|i: int| 0 <= i < shown_formats(formats).len() implies {
            &&& !hidden_format(#[trigger] shown_formats(formats)[i])
            &&& formats.contains(shown_formats(formats)[i])
        } by {
            if i < shown_formats(fewer).len() {
                let format = shown_formats(fewer)[i];
                assert(shown_formats(formats)[i] == format);
                let k = choose|k: int| 0 <= k < fewer.len() && fewer[k] == format;
                assert(formats[k] == format);
            } else {
                assert(formats[formats.len() - 1] == shown_formats(formats)[i]);
            }
        }
    }
}

/// A list without hidden formats is shown as it is.
proof fn lemma_nothing_hidden(formats: Seq<Seq<char>>)
    requires
        forall|i: int| 0 <= i < formats.len() ==> !hidden_format(#[trigger] formats[i]),
    ensures
        shown_formats(formats) == formats,
    decreases formats.len(),
{
    reveal(Seq::filter);
    if formats.len() > 0 {
        let fewer = formats.drop_last();
        assert forall|i: int| 0 <= i < fewer.len() implies !hidden_format(#[trigger] fewer[i]) by {
            assert(!hidden_format(formats[i]));
        }
        lemma_nothing_hidden(fewer);
        assert(!hidden_format(formats[formats.len() - 1]));
        assert(fewer.push(formats.last()) =~= formats);
    }
}

/// The empty text is a list of one format without a name, which is not hidden.
proof fn lemma_empty_list()
    ensures
        text::split_at(seq![], ',') == seq![Seq::<char>::empty()],
        !hidden_format(seq![]),
        shown_formats(seq![Seq::<char>::empty()]) == seq![Seq::<char>::empty()],
        text::joined(seq![Seq::<char>::empty()], ","@) == Seq::<char>::empty(),
        text::joined(seq![], ","@) == Seq::<char>::empty(),
{
    reveal_strlit("CUDA");
    assert("CUDA"@.len() > 0);
    reveal_strlit("D3D11");
    assert("D3D11"@.len() > 0);
    reveal_strlit("BGRZ");
    assert("BGRZ"@.len() > 0);
    reveal_strlit("RGBZ");
    assert("RGBZ"@.len() > 0);
    reveal_strlit("BGRA");
    assert("BGRA"@.len() > 0);
    reveal_strlit("UYVY422");
    assert("UYVY422"@.len() > 0);
    reveal_strlit("VIDEOTOOLBOX");
    assert("VIDEOTOOLBOX"@.len() > 0);
    reveal_strlit("DXVA2");
    assert("DXVA2"@.len() > 0);
    reveal_strlit("MEDIACODEC");
    assert("MEDIACODEC"@.len() > 0);
    reveal_strlit("VULKAN");
    assert("VULKAN"@.len() > 0);
    reveal_strlit("OPENCL");
    assert("OPENCL"@.len() > 0);
    reveal_strlit("QSV");
    assert("QSV"@.len() > 0);
    lemma_nothing_hidden(seq![Seq::<char>::empty()]);
}

/// The formats offered of a list of names: the shown ones, in their order.
pub proof fn law_offer_lists_shown_formats(names: Seq<Seq<char>>)
    requires
        forall|i: int| 0 <= i < names.len() ==> !(#[trigger] names[i]).contains(','),
    ensures
        offered(text::joined(names, ","@)) == text::joined(shown_formats(names), ","@),
{
    reveal_strlit(",");
    assert(","@ =~= seq![',']);
    lemma_empty_list();
    if names.len() > 0 {
        text::law_split_undoes_join(names, ',');
    } else {
        reveal(Seq::filter);
        assert(names =~= seq![]);
    }
}

/// Nothing hidden is offered.
pub proof fn law_no_hidden_format_is_offered(supported: Seq<char>)
    ensures
        forall|i: int|
            0 <= i < text::split_at(offered(supported), ',').len() ==> !hidden_format(
                #[trigger] text::split_at(offered(supported), ',')[i],
            ),
{
    reveal_strlit(",");
    assert(","@ =~= seq![',']);
    lemma_empty_list();
    let formats = text::split_at(supported, ',');
    let shown = shown_formats(formats);
    text::lemma_split_pieces(supported, ',');
    lemma_shown_formats(formats);
    if shown.len() > 0 {
        assert forall|i: int| 0 <= i < shown.len() implies !(#[trigger] shown[i]).contains(',') by {
            assert(formats.contains(shown[i]));
            let k = choose|k: int| 0 <= k < formats.len() && formats[k] == shown[i];
            assert(!formats[k].contains(','));
        }
        text::law_split_undoes_join(shown, ',');
    } else {
        assert(shown =~= seq![]);
    }
}

/// A list shows its formats one by one, in order: a format of those that live on a device or
/// have no use here is left out, and any other is kept as it is.
pub proof fn law_each_format_is_shown_or_hidden(formats: Seq<Seq<char>>, format: Seq<char>)
    ensures
        shown_formats(Seq::<Seq<char>>::empty()) == Seq::<Seq<char>>::empty(),
        ({
            let hidden = seq![
                "CUDA"@,
                "D3D11"@,
                "BGRZ"@,
                "RGBZ"@,
                "BGRA"@,
                "UYVY422"@,
                "VIDEOTOOLBOX"@,
                "DXVA2"@,
                "MEDIACODEC"@,
                "VULKAN"@,
                "OPENCL"@,
                "QSV"@,
            ];
            &&& hidden_format(format) == hidden.contains(format)
            &&& hidden.contains(format) ==> shown_formats(formats.push(format)) == shown_formats(
                formats,
            )
            &&& !hidden.contains(format) ==> shown_formats(formats.push(format)) == shown_formats(
                formats,
            ).push(format)
        }),
{
    reveal(Seq::filter);
    assert(formats.push(format).drop_last() =~= formats);
    let hidden = seq![
        "CUDA"@,
        "D3D11"@,
        "BGRZ"@,
        "RGBZ"@,
        "BGRA"@,
        "UYVY422"@,
        "VIDEOTOOLBOX"@,
        "DXVA2"@,
        "MEDIACODEC"@,
        "VULKAN"@,
        "OPENCL"@,
        "QSV"@,
    ];
    assert(hidden_format(format) ==> hidden.contains(format)) by {
        assert(hidden[0] == "CUDA"@ && hidden[1] == "D3D11"@ && hidden[2] == "BGRZ"@);
        assert(hidden[3] == "RGBZ"@ && hidden[4] == "BGRA"@ && hidden[5] == "UYVY422"@);
        assert(hidden[6] == "VIDEOTOOLBOX"@ && hidden[7] == "DXVA2"@ && hidden[8]
            == "MEDIACODEC"@);
        assert(hidden[9] == "VULKAN"@ && hidden[10] == "OPENCL"@ && hidden[11] == "QSV"@);
    }
}

/// What a row shows of a needed conversion names the format and the formats on offer.
pub proof fn law_conversion_request_names_both(format: Seq<char>, supported: Seq<char>)
    ensures
        conversion_request(format, supported) == "convert_format:"@ + format + ";"@ + supported,
{
}

/// What is offered of an offer is the offer.
pub proof fn law_offer_is_stable(supported: Seq<char>)
    ensures
        offered(offered(supported)) == offered(supported),
{
    reveal_strlit(",");
    assert(","@ =~= seq![',']);
    law_no_hidden_format_is_offered(supported);
    lemma_nothing_hidden(text::split_at(offered(supported), ','));
    text::law_join_undoes_split(offered(supported), ',');
}

/// Whether a pixel format is kept from the user.
pub fn is_hidden_format(format: &str) -> (hidden: bool)
    ensures
        hidden == hidden_format(format@),
{
    text::same_text(format, "CUDA") || text::same_text(format, "D3D11") || text::same_text(
        format,
        "BGRZ",
    ) || text::same_text(format, "RGBZ") || text::same_text(format, "BGRA") || text::same_text(
        format,
        "UYVY422",
    ) || text::same_text(format, "VIDEOTOOLBOX") || text::same_text(format, "DXVA2")
        || text::same_text(format, "MEDIACODEC") || text::same_text(format, "VULKAN")
        || text::same_text(format, "OPENCL") || text::same_text(format, "QSV")
}

/// The comma-separated list `supported` without the hidden formats.
pub fn offered_formats(supported: &str) -> (offer: String)
    ensures
        offer@ == offered(supported@),
{
    let formats = text::split_text(supported, ',');
    let ghost all = text::texts(formats@);
    let mut shown: Vec<String> = Vec::new();
    let mut at: usize = 0;
    proof {
        reveal(Seq::filter);
        assert(all.take(0) =~= seq![]);
        assert(text::texts(shown@) =~= seq![]);
    }
    while at < formats.len()
        invariant
            at <= formats.len(),
            all == text::texts(formats@),
            text::texts(shown@) == shown_formats(all.take(at as int)),
        decreases formats.len() - at,
    {
        let ghost before = text::texts(shown@);
        proof {
            reveal(Seq::filter);
            assert(all.take(at + 1).drop_last() =~= all.take(at as int));
            assert(all.take(at + 1).last() == formats@[at as int]@);
        }
        if !is_hidden_format(&formats[at]) {
            shown.push(formats[at].clone());
            assert(text::texts(shown@) =~= before.push(formats@[at as int]@));
        }
        at = at + 1;
    }
    assert(all.take(at as int) =~= all);
    text::join(&shown, ",")
}

/// What the row of a job shows that needs another pixel format.
pub fn conversion_message(format: &str, supported: &str) -> (message: String)
    ensures
        message@ == conversion_request(format@, supported@),
{
    let mut message = "convert_format:".to_owned();
    message.append(format);
    message.append(";");
    message.append(supported);
    message
}

} // verus!
