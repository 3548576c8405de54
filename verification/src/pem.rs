//! Decoding of PEM buffers into classified credential sections.
//!
//! A PEM buffer holds a sequence of delimited, base64-encoded sections. The
//! decoder classifies each section: an X.509 certificate, a PKCS#1 private
//! key, or some other (ignored) kind. The actual framing and base64 work is
//! done by `rustls_pemfile`; everything downstream of it — classification,
//! ordering, selection — is verified here.

use vstd::prelude::*;

verus! {

/// One decoded PEM section, as the mathematical model sees it: the DER bytes
/// of an X.509 certificate, the DER bytes of a PKCS#1 private key, or any
/// other section kind (ignored by every consumer).
#[verifier::ext_equal]
pub enum PemItem {
    Certificate(Seq<u8>),
    Pkcs1Key(Seq<u8>),
    Other,
}

/// One decoded PEM section as executable code holds it.
pub enum PemBlock {
    Certificate(Vec<u8>),
    Pkcs1Key(Vec<u8>),
    Other,
}

impl View for PemBlock {
    type V = PemItem;

    open spec fn view(&self) -> PemItem {
        match self {
            PemBlock::Certificate(d) => PemItem::Certificate(d@),
            PemBlock::Pkcs1Key(d) => PemItem::Pkcs1Key(d@),
            PemBlock::Other => PemItem::Other,
        }
    }
}

/// The models of a sequence of decoded blocks.
pub open spec fn models(blocks: Seq<PemBlock>) -> Seq<PemItem> {
    blocks.map_values(|b: PemBlock| b@)
}

/// What decoding a byte buffer yields: `None` when some section's framing or
/// base64 content cannot be parsed, otherwise every section in source order.
pub uninterp spec fn pem_scan(data: Seq<u8>) -> Option<Seq<PemItem>>;

/// Relies on `rustls_pemfile::read_all` (a stream of `read_one` calls): it
/// yields, in source order, one item per PEM section of the buffer, and an
/// error for a section whose framing or base64 content cannot be parsed.
/// The outcome depends on the bytes of the buffer alone.
#[verifier::external_body]
pub(crate) fn parse_pem_blocks(pem: &[u8]) -> (r: Option<Vec<PemBlock>>)
    ensures
        match r {
            Some(blocks) => pem_scan(pem@) == Some(models(blocks@)),
            None => pem_scan(pem@) is None,
        },
{
    let mut reader = std::io::BufReader::new(pem);
    let mut out: Vec<PemBlock> = Vec::new();
    for item in rustls_pemfile::read_all(&mut reader) {
        match item {
            Ok(rustls_pemfile::Item::X509Certificate(c)) => {
                out.push(PemBlock::Certificate(c.as_ref().to_vec()))
            }
            Ok(rustls_pemfile::Item::Pkcs1Key(k)) => {
                out.push(PemBlock::Pkcs1Key(k.secret_pkcs1_der().to_vec()))
            }
            Ok(_) => out.push(PemBlock::Other),
            Err(_) => return None,
        }
    }
    Some(out)
}

/// The certificate payload of a section, if it is a certificate.
pub open spec fn cert_der(item: PemItem) -> Option<Seq<u8>> {
    match item {
        PemItem::Certificate(d) => Some(d),
        _ => None,
    }
}

/// The key payload of a section, if it is a PKCS#1 private key.
pub open spec fn key_der(item: PemItem) -> Option<Seq<u8>> {
    match item {
        PemItem::Pkcs1Key(d) => Some(d),
        _ => None,
    }
}

/// The DER payloads of the certificate sections, in source order.
pub open spec fn cert_payloads(items: Seq<PemItem>) -> Seq<Seq<u8>> {
    items.filter_map(|i: PemItem| cert_der(i))
}

/// The DER payloads of the PKCS#1 private-key sections, in source order.
pub open spec fn key_payloads(items: Seq<PemItem>) -> Seq<Seq<u8>> {
    items.filter_map(|i: PemItem| key_der(i))
}

proof fn lemma_filter_map_append<A, B>(a: Seq<A>, b: Seq<A>, f: spec_fn(A) -> Option<B>)
    ensures
        (a + b).filter_map(f) == a.filter_map(f) + b.filter_map(f),
    decreases b.len(),
{
    if b.len() == 0 {
        assert(a + b =~= a);
        assert(a.filter_map(f) + b.filter_map(f) =~= a.filter_map(f));
    } else {
        lemma_filter_map_append(a, b.drop_last(), f);
        assert((a + b).drop_last() =~= a + b.drop_last());
        assert((a + b).last() == b.last());
        match f(b.last()) {
            Some(s) => {
                assert((a.filter_map(f) + b.drop_last().filter_map(f)) + seq![s] =~= a.filter_map(
                    f,
                ) + (b.drop_last().filter_map(f) + seq![s]));
            }
            None => {}
        }
    }
}

/// Law: decoding preserves source order — the certificate chain of a buffer
/// whose sections are `a` followed by `b` is the chain of `a` followed by the
/// chain of `b`.
pub proof fn lemma_cert_order_preserved(a: Seq<PemItem>, b: Seq<PemItem>)
    ensures
        cert_payloads(a + b) == cert_payloads(a) + cert_payloads(b),
{
    lemma_filter_map_append(a, b, |it: PemItem| cert_der(it));
}

/// Law: sections holding no certificate yield an empty chain.
pub proof fn lemma_no_certificates(items: Seq<PemItem>)
    requires
        forall|j: int| 0 <= j < items.len() ==> !(#[trigger] items[j] is Certificate),
    ensures
        cert_payloads(items) == Seq::<Seq<u8>>::empty(),
    decreases items.len(),
{
    if items.len() > 0 {
        lemma_no_certificates(items.drop_last());
        assert(!(items[items.len() - 1] is Certificate));
    }
}

/// Law: sections holding no PKCS#1 private key yield no key payload.
pub proof fn lemma_no_keys(items: Seq<PemItem>)
    requires
        forall|j: int| 0 <= j < items.len() ==> !(#[trigger] items[j] is Pkcs1Key),
    ensures
        key_payloads(items) == Seq::<Seq<u8>>::empty(),
    decreases items.len(),
{
    if items.len() > 0 {
        lemma_no_keys(items.drop_last());
        assert(!(items[items.len() - 1] is Pkcs1Key));
    }
}

/// Law: sections holding exactly one certificate decode to the chain holding
/// exactly that certificate's DER bytes.
pub proof fn lemma_single_certificate(items: Seq<PemItem>, i: int)
    requires
        0 <= i < items.len(),
        items[i] is Certificate,
        forall|j: int| 0 <= j < items.len() && j != i ==> !(#[trigger] items[j] is Certificate),
    ensures
        cert_payloads(items) == seq![items[i]->Certificate_0],
{
    let f = |it: PemItem| cert_der(it);
    assert forall|j: int| 0 <= j < items.take(i).len() implies !(#[trigger] items.take(
        i,
    )[j] is Certificate) by {
        assert(items.take(i)[j] == items[j]);
    }
    lemma_no_certificates(items.take(i));
    assert forall|j: int| 0 <= j < items.skip(i + 1).len() implies !(#[trigger] items.skip(
        i + 1,
    )[j] is Certificate) by {
        assert(items.skip(i + 1)[j] == items[j + i + 1]);
    }
    lemma_no_certificates(items.skip(i + 1));
    lemma_filter_map_append(items.take(i + 1), items.skip(i + 1), f);
    assert(items.take(i + 1) + items.skip(i + 1) =~= items);
    assert(items.take(i + 1).drop_last() =~= items.take(i));
    assert(items.take(i + 1).last() == items[i]);
    assert(cert_payloads(items) =~= seq![items[i]->Certificate_0]);
}

/// Law (first match wins): when the earliest PKCS#1 private key among the
/// sections stands at position `i`, the selected key payload is that key's.
pub proof fn lemma_first_key_selected(items: Seq<PemItem>, i: int)
    requires
        0 <= i < items.len(),
        items[i] is Pkcs1Key,
        forall|j: int| 0 <= j < i ==> !(#[trigger] items[j] is Pkcs1Key),
    ensures
        key_payloads(items).len() >= 1,
        key_payloads(items)[0] == items[i]->Pkcs1Key_0,
{
    let f = |it: PemItem| key_der(it);
    assert forall|j: int| 0 <= j < items.take(i).len() implies !(#[trigger] items.take(
        i,
    )[j] is Pkcs1Key) by {
        assert(items.take(i)[j] == items[j]);
    }
    lemma_no_keys(items.take(i));
    lemma_filter_map_append(items.take(i + 1), items.skip(i + 1), f);
    assert(items.take(i + 1) + items.skip(i + 1) =~= items);
    assert(items.take(i + 1).drop_last() =~= items.take(i));
    assert(items.take(i + 1).last() == items[i]);
    assert(key_payloads(items.take(i + 1)) =~= seq![items[i]->Pkcs1Key_0]);
}

/// Copies a byte vector.
fn copy_bytes(src: &Vec<u8>) -> (r: Vec<u8>)
    ensures
        r@ == src@,
{
    let mut out: Vec<u8> = Vec::new();
    let mut i: usize = 0;
    while i < src.len()
        invariant
            i <= src.len(),
            out@ == src@.take(i as int),
        decreases src.len() - i,
    {
        out.push(src[i]);
        proof {
            assert(src@.take(i + 1) =~= src@.take(i as int).push(src@[i as int]));
        }
        i += 1;
    }
    proof {
        assert(src@.take(src@.len() as int) =~= src@);
    }
    out
}

/// Collects the certificate payloads of the decoded blocks, in source order.
pub(crate) fn certificates_of(blocks: &Vec<PemBlock>) -> (r: Vec<Vec<u8>>)
    ensures
        r.deep_view() == cert_payloads(models(blocks@)),
{
    let mut out: Vec<Vec<u8>> = Vec::new();
    let mut i: usize = 0;
    while i < blocks.len()
        invariant
            i <= blocks.len(),
            out.deep_view() == cert_payloads(models(blocks@).take(i as int)),
        decreases blocks.len() - i,
    {
        let ghost prev = out.deep_view();
        match &blocks[i] {
            PemBlock::Certificate(d) => {
                out.push(copy_bytes(d));
                proof {
                    assert(out.deep_view() =~= prev.push(d@)) by {
                        assert forall|j: int| 0 <= j < prev.len() implies out.deep_view()[j]
                            == prev[j] by {
                            assert(out@[j] == out@.drop_last()[j]);
                        }
                        assert(out.deep_view()[prev.len() as int] =~= d@);
                    }
                }
            }
            _ => {}
        }
        proof {
            models(blocks@).lemma_filter_map_take_succ(|it: PemItem| cert_der(it), i as int);
            assert(models(blocks@)[i as int] == blocks@[i as int]@);
            assert(out.deep_view() =~= cert_payloads(models(blocks@).take(i as int + 1)));
        }
        i += 1;
    }
    proof {
        assert(models(blocks@).take(blocks@.len() as int) =~= models(blocks@));
    }
    out
}

/// Collects the PKCS#1 private-key payloads of the decoded blocks, in source
/// order.
pub(crate) fn keys_of(blocks: &Vec<PemBlock>) -> (r: Vec<Vec<u8>>)
    ensures
        r.deep_view() == key_payloads(models(blocks@)),
{
    let mut out: Vec<Vec<u8>> = Vec::new();
    let mut i: usize = 0;
    while i < blocks.len()
        invariant
            i <= blocks.len(),
            out.deep_view() == key_payloads(models(blocks@).take(i as int)),
        decreases blocks.len() - i,
    {
        let ghost prev = out.deep_view();
        match &blocks[i] {
            PemBlock::Pkcs1Key(d) => {
                out.push(copy_bytes(d));
                proof {
                    assert(out.deep_view() =~= prev.push(d@)) by {
                        assert forall|j: int| 0 <= j < prev.len() implies out.deep_view()[j]
                            == prev[j] by {
                            assert(out@[j] == out@.drop_last()[j]);
                        }
                        assert(out.deep_view()[prev.len() as int] =~= d@);
                    }
                }
            }
            _ => {}
        }
        proof {
            models(blocks@).lemma_filter_map_take_succ(|it: PemItem| key_der(it), i as int);
            assert(models(blocks@)[i as int] == blocks@[i as int]@);
            assert(out.deep_view() =~= key_payloads(models(blocks@).take(i as int + 1)));
        }
        i += 1;
    }
    proof {
        assert(models(blocks@).take(blocks@.len() as int) =~= models(blocks@));
    }
    out
}

} // verus!
