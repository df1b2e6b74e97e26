//! Endpoints and request bodies of the private store API.
use vstd::prelude::*;
use crate::constants::{PRIVATE_APPSTORE_DOMAIN, PRIVATE_DOWNLOAD_PATH, PRIVATE_PURCHASE_PATH};
use crate::error::IpaToolError;
use crate::text::{chars_of, concat, decimal, u64_to_string};

verus! {

/// A value in a request body.
#[derive(Debug, Clone)]
pub enum PayloadValue {
    Text(String),
    Number(u64),
}

/// One key of a request body and its value.
#[derive(Debug, Clone)]
pub struct PayloadField {
    pub key: String,
    pub value: PayloadValue,
}

/// A request-body value as a mathematical value.
pub enum FieldValue {
    Text(Seq<char>),
    Number(u64),
}

pub open spec fn field_value(v: PayloadValue) -> FieldValue {
    match v {
        PayloadValue::Text(s) => FieldValue::Text(s@),
        PayloadValue::Number(n) => FieldValue::Number(n),
    }
}

/// The keys and values of a request body, in order.
pub open spec fn fields_view(f: Seq<PayloadField>) -> Seq<(Seq<char>, FieldValue)> {
    f.map_values(|p: PayloadField| (p.key@, field_value(p.value)))
}

/// The `plist` crate's dictionary, which verified code only carries.
#[verifier::external_type_specification]
#[verifier::external_body]
pub struct ExDictionary(plist::Dictionary);

/// The keys and values that a property-list dictionary holds, in its order,
/// as far as request bodies put them there.
pub uninterp spec fn dictionary_fields(d: plist::Dictionary) -> Seq<(Seq<char>, FieldValue)>;

/// Whether every value the dictionary holds is a property-list string or
/// integer.
pub uninterp spec fn strings_and_integers(d: plist::Dictionary) -> bool;

/// The XML property list that `plist::to_writer_xml` writes for a dictionary
/// holding these keys and values in this order.
pub uninterp spec fn plist_xml(fields: Seq<(Seq<char>, FieldValue)>) -> Seq<u8>;

/// The entries after inserting `key` with `value`: a key that is there
/// keeps its place and takes the new value; a new key goes last.
pub open spec fn with_field(
    entries: Seq<(Seq<char>, FieldValue)>,
    key: Seq<char>,
    value: FieldValue,
) -> Seq<(Seq<char>, FieldValue)> {
    if exists|i: int| 0 <= i < entries.len() && (#[trigger] entries[i]).0 == key {
        entries.update(
            choose|i: int| 0 <= i < entries.len() && (#[trigger] entries[i]).0 == key,
            (key, value),
        )
    } else {
        entries.push((key, value))
    }
}

/// `plist::Dictionary::new`: a dictionary with nothing in it.
#[verifier::external_body]
fn new_dictionary() -> (d: plist::Dictionary)
    ensures
        dictionary_fields(d) == Seq::<(Seq<char>, FieldValue)>::empty(),
        strings_and_integers(d),
{
    plist::Dictionary::new()
}

/// `plist::Dictionary::insert` of the field's key and its value as a
/// property-list string or integer. As the dictionary is an `IndexMap`, a
/// key that is there keeps its place and a new key goes last.
#[verifier::external_body]
fn insert_field(d: &mut plist::Dictionary, field: &PayloadField)
    ensures
        dictionary_fields(*final(d)) == with_field(
            dictionary_fields(*old(d)),
            field.key@,
            field_value(field.value),
        ),
        strings_and_integers(*old(d)) ==> strings_and_integers(*final(d)),
{
    let value = match &field.value {
        PayloadValue::Text(s) => plist::Value::String(s.clone()),
        PayloadValue::Number(n) => plist::Value::Integer((*n).into()),
    };
    d.insert(field.key.clone(), value);
}

/// `plist::to_writer_xml` on the dictionary as a value, into a byte vector.
/// The text is named as a whole. The XML writer fails only when its output
/// fails, on an unbalanced sequence of events, or on a `Uid`: none of these can
/// happen for a dictionary of strings and integers written to a vector, so
/// the writing succeeds.
#[verifier::external_body]
fn write_xml(d: plist::Dictionary) -> (r: Result<Vec<u8>, String>)
    requires
        strings_and_integers(d),
    ensures
        r is Ok,
        r matches Ok(b) ==> b@ == plist_xml(dictionary_fields(d)),
{
    let mut out = Vec::new();
    plist::to_writer_xml(&mut out, &plist::Value::Dictionary(d)).map_err(|e| e.to_string())?;
    Ok(out)
}

/// The entries of a dictionary into which `fields` were inserted in order.
pub open spec fn inserted(fields: Seq<(Seq<char>, FieldValue)>) -> Seq<(Seq<char>, FieldValue)>
    decreases fields.len(),
{
    if fields.len() == 0 {
        Seq::empty()
    } else {
        with_field(inserted(fields.drop_last()), fields.last().0, fields.last().1)
    }
}

/// No key occurs twice.
pub open spec fn distinct_keys(fields: Seq<(Seq<char>, FieldValue)>) -> bool {
    forall|i: int, j: int| 0 <= i < j < fields.len() ==> fields[i].0 != fields[j].0
}

/// Inserting fields with distinct keys keeps them all, in order.
pub proof fn lemma_inserted_distinct(fields: Seq<(Seq<char>, FieldValue)>)
    requires
        distinct_keys(fields),
    ensures
        inserted(fields) == fields,
    decreases fields.len(),
{
    if fields.len() > 0 {
        let rest = fields.drop_last();
        assert(distinct_keys(rest));
        lemma_inserted_distinct(rest);
        let key = fields.last().0;
        assert(!exists|i: int| 0 <= i < rest.len() && (#[trigger] rest[i]).0 == key) by {
            assert forall|i: int| 0 <= i < rest.len() implies (#[trigger] rest[i]).0 != key by {
                assert(rest[i] == fields[i]);
            }
        }
        assert(rest.push(fields.last()) =~= fields);
    }
}

/// The request body for `fields`, as an XML property list: the fields are
/// inserted into a dictionary in order, which is then written out.
pub fn payload_xml(fields: &Vec<PayloadField>) -> (r: Result<Vec<u8>, IpaToolError>)
    ensures
        r matches Ok(b) && b@ == plist_xml(inserted(fields_view(fields@))),
{
    let mut d = new_dictionary();
    let mut i: usize = 0;
    while i < fields.len()
        invariant
            i <= fields@.len(),
            dictionary_fields(d) == inserted(fields_view(fields@.subrange(0, i as int))),
            strings_and_integers(d),
        decreases fields@.len() - i,
    {
        insert_field(&mut d, &fields[i]);
        proof {
            let pre = fields_view(fields@.subrange(0, i as int + 1));
            assert(pre.drop_last() =~= fields_view(fields@.subrange(0, i as int)));
            assert(pre.last() == (fields@[i as int].key@, field_value(fields@[i as int].value)));
        }
        i = i + 1;
    }
    assert(fields@.subrange(0, fields@.len() as int) =~= fields@);
    match write_xml(d) {
        Ok(b) => Ok(b),
        Err(m) => Err(IpaToolError::Plist(m)),
    }
}

fn text_field(key: &str, value: &str) -> (f: PayloadField)
    ensures
        f.key@ == key@,
        field_value(f.value) == FieldValue::Text(value@),
{
    PayloadField { key: String::from_str(key), value: PayloadValue::Text(String::from_str(value)) }
}

fn number_field(key: &str, value: u64) -> (f: PayloadField)
    ensures
        f.key@ == key@,
        field_value(f.value) == FieldValue::Number(value),
{
    PayloadField { key: String::from_str(key), value: PayloadValue::Number(value) }
}

// ---------------------------------------------------------------------------
// URLs
// ---------------------------------------------------------------------------

/// `p<pod>-` for a pod that is there and not empty.
pub open spec fn pod_prefix(pod: Option<Seq<char>>) -> Seq<char> {
    match pod {
        Some(p) => if p.len() > 0 {
            "p"@ + p + "-"@
        } else {
            Seq::empty()
        },
        None => Seq::empty(),
    }
}

fn pod_prefix_of(pod: Option<&str>) -> (s: String)
    ensures
        s@ == pod_prefix(
            match pod {
                Some(p) => Some(p@),
                None => None,
            },
        ),
{
    match pod {
        Some(p) => {
            if chars_of(p).len() > 0 {
                let s = concat("p", p);
                concat(s.as_str(), "-")
            } else {
                String::new()
            }
        },
        None => String::new(),
    }
}

pub open spec fn opt_view(o: Option<&str>) -> Option<Seq<char>> {
    match o {
        Some(p) => Some(p@),
        None => None,
    }
}

/// The purchase endpoint, on the account's pod when it has one.
pub open spec fn purchase_url_spec(pod: Option<Seq<char>>) -> Seq<char> {
    "https://"@ + pod_prefix(pod) + PRIVATE_APPSTORE_DOMAIN@ + PRIVATE_PURCHASE_PATH@
}

/// The purchase endpoint for an account on `pod`.
pub fn purchase_url(pod: Option<&str>) -> (s: String)
    ensures
        s@ == purchase_url_spec(opt_view(pod)),
{
    let prefix = pod_prefix_of(pod);
    let s = concat("https://", prefix.as_str());
    let s = concat(s.as_str(), PRIVATE_APPSTORE_DOMAIN);
    concat(s.as_str(), PRIVATE_PURCHASE_PATH)
}

/// The download endpoint for a device, on the account's pod when it has one.
pub open spec fn download_url_spec(pod: Option<Seq<char>>, guid: Seq<char>) -> Seq<char> {
    "https://"@ + pod_prefix(pod) + PRIVATE_APPSTORE_DOMAIN@ + PRIVATE_DOWNLOAD_PATH@ + "?guid="@
        + guid
}

/// The download endpoint for an account on `pod` and the device `guid`.
pub fn download_url(pod: Option<&str>, guid: &str) -> (s: String)
    ensures
        s@ == download_url_spec(opt_view(pod), guid@),
{
    let prefix = pod_prefix_of(pod);
    let s = concat("https://", prefix.as_str());
    let s = concat(s.as_str(), PRIVATE_APPSTORE_DOMAIN);
    let s = concat(s.as_str(), PRIVATE_DOWNLOAD_PATH);
    let s = concat(s.as_str(), "?guid=");
    concat(s.as_str(), guid)
}

/// The download endpoint that the version listing uses: there any pod,
/// empty or not, is put in front of the domain.
pub open spec fn list_versions_url_spec(pod: Option<Seq<char>>, guid: Seq<char>) -> Seq<char> {
    let prefix = match pod {
        Some(p) => "p"@ + p + "-"@,
        None => Seq::empty(),
    };
    "https://"@ + prefix + PRIVATE_APPSTORE_DOMAIN@ + PRIVATE_DOWNLOAD_PATH@ + "?guid="@ + guid
}

/// The endpoint that lists versions, for an account on `pod`.
pub fn list_versions_url(pod: Option<&str>, guid: &str) -> (s: String)
    ensures
        s@ == list_versions_url_spec(opt_view(pod), guid@),
{
    let prefix = match pod {
        Some(p) => {
            let s = concat("p", p);
            concat(s.as_str(), "-")
        },
        None => String::new(),
    };
    let s = concat("https://", prefix.as_str());
    let s = concat(s.as_str(), PRIVATE_APPSTORE_DOMAIN);
    let s = concat(s.as_str(), PRIVATE_DOWNLOAD_PATH);
    let s = concat(s.as_str(), "?guid=");
    concat(s.as_str(), guid)
}

// ---------------------------------------------------------------------------
// Request bodies
// ---------------------------------------------------------------------------

/// The body of a request to acquire a free app.
pub open spec fn purchase_fields_spec(guid: Seq<char>, app_id: u64, pricing: Seq<char>) -> Seq<
    (Seq<char>, FieldValue),
> {
    seq![
        ("appExtVrsId"@, FieldValue::Text("0"@)),
        ("hasAskedToFulfillPreorder"@, FieldValue::Text("true"@)),
        ("buyWithoutAuthorization"@, FieldValue::Text("true"@)),
        ("hasDoneAgeCheck"@, FieldValue::Text("true"@)),
        ("guid"@, FieldValue::Text(guid)),
        ("needDiv"@, FieldValue::Text("0"@)),
        ("origPage"@, FieldValue::Text("Software-"@ + decimal(app_id as nat))),
        ("origPageLocation"@, FieldValue::Text("Buy"@)),
        ("price"@, FieldValue::Text("0"@)),
        ("pricingParameters"@, FieldValue::Text(pricing)),
        ("productType"@, FieldValue::Text("C"@)),
        ("salableAdamId"@, FieldValue::Number(app_id)),
    ]
}

/// The fields of a purchase body, in order.
pub fn purchase_fields(guid: &str, app_id: u64, pricing_parameters: &str) -> (v: Vec<PayloadField>)
    ensures
        fields_view(v@) == purchase_fields_spec(guid@, app_id, pricing_parameters@),
{
    let page = concat("Software-", u64_to_string(app_id).as_str());
    let mut v: Vec<PayloadField> = Vec::new();
    v.push(text_field("appExtVrsId", "0"));
    v.push(text_field("hasAskedToFulfillPreorder", "true"));
    v.push(text_field("buyWithoutAuthorization", "true"));
    v.push(text_field("hasDoneAgeCheck", "true"));
    v.push(text_field("guid", guid));
    v.push(text_field("needDiv", "0"));
    v.push(text_field("origPage", page.as_str()));
    v.push(text_field("origPageLocation", "Buy"));
    v.push(text_field("price", "0"));
    v.push(text_field("pricingParameters", pricing_parameters));
    v.push(text_field("productType", "C"));
    v.push(number_field("salableAdamId", app_id));
    assert(fields_view(v@) =~= purchase_fields_spec(guid@, app_id, pricing_parameters@));
    v
}

/// The XML body of a request to acquire a free app.
pub fn purchase_payload(guid: &str, app_id: u64, pricing_parameters: &str) -> (r: Result<
    Vec<u8>,
    IpaToolError,
>)
    ensures
        r matches Ok(b) && b@ == plist_xml(purchase_fields_spec(guid@, app_id, pricing_parameters@)),
{
    let fields = purchase_fields(guid, app_id, pricing_parameters);
    proof {
        lemma_purchase_keys_distinct(guid@, app_id, pricing_parameters@);
        lemma_inserted_distinct(purchase_fields_spec(guid@, app_id, pricing_parameters@));
    }
    payload_xml(&fields)
}

/// The keys of a purchase body are all different.
proof fn lemma_purchase_keys_distinct(guid: Seq<char>, app_id: u64, pricing: Seq<char>)
    ensures
        distinct_keys(purchase_fields_spec(guid, app_id, pricing)),
{
    reveal_strlit("appExtVrsId");
    reveal_strlit("hasAskedToFulfillPreorder");
    reveal_strlit("buyWithoutAuthorization");
    reveal_strlit("hasDoneAgeCheck");
    reveal_strlit("guid");
    reveal_strlit("needDiv");
    reveal_strlit("origPage");
    reveal_strlit("origPageLocation");
    reveal_strlit("price");
    reveal_strlit("pricingParameters");
    reveal_strlit("productType");
    reveal_strlit("salableAdamId");
    let f = purchase_fields_spec(guid, app_id, pricing);
    assert forall|i: int, j: int| 0 <= i < j < f.len() implies f[i].0 != f[j].0 by {
        if f[i].0.len() == f[j].0.len() {
            assert(f[i].0[0] != f[j].0[0]);
        }
    }
}

/// The body of a download request; a version is asked for only when one is
/// given and it is not empty.
pub open spec fn download_fields_spec(
    guid: Seq<char>,
    app_id: u64,
    external_version_id: Option<Seq<char>>,
) -> Seq<(Seq<char>, FieldValue)> {
    let base = seq![
        ("creditDisplay"@, FieldValue::Text(Seq::empty())),
        ("guid"@, FieldValue::Text(guid)),
        ("salableAdamId"@, FieldValue::Number(app_id)),
    ];
    match external_version_id {
        Some(v) => if v.len() > 0 {
            base.push(("externalVersionId"@, FieldValue::Text(v)))
        } else {
            base
        },
        None => base,
    }
}

fn base_download_fields(guid: &str, app_id: u64) -> (v: Vec<PayloadField>)
    ensures
        fields_view(v@) == download_fields_spec(guid@, app_id, None),
{
    let mut v: Vec<PayloadField> = Vec::new();
    v.push(PayloadField { key: String::from_str("creditDisplay"), value: PayloadValue::Text(String::new()) });
    v.push(text_field("guid", guid));
    v.push(number_field("salableAdamId", app_id));
    assert(fields_view(v@) =~= download_fields_spec(guid@, app_id, None));
    v
}

/// The fields of a download body, in order.
pub fn download_fields(guid: &str, app_id: u64, external_version_id: Option<&str>) -> (v: Vec<
    PayloadField,
>)
    ensures
        fields_view(v@) == download_fields_spec(guid@, app_id, opt_view(external_version_id)),
{
    let mut v = base_download_fields(guid, app_id);
    let ghost base = fields_view(v@);
    match external_version_id {
        Some(ext) => {
            if chars_of(ext).len() > 0 {
                v.push(text_field("externalVersionId", ext));
                assert(fields_view(v@) =~= base.push(("externalVersionId"@, FieldValue::Text(ext@))));
            }
        },
        None => {},
    }
    v
}

/// The XML body of a download request.
pub fn download_payload(guid: &str, app_id: u64, external_version_id: Option<&str>) -> (r: Result<
    Vec<u8>,
    IpaToolError,
>)
    ensures
        r matches Ok(b) && b@ == plist_xml(
            download_fields_spec(guid@, app_id, opt_view(external_version_id)),
        ),
{
    let fields = download_fields(guid, app_id, external_version_id);
    proof {
        lemma_download_keys_distinct(guid@, app_id, opt_view(external_version_id));
        lemma_inserted_distinct(download_fields_spec(guid@, app_id, opt_view(external_version_id)));
    }
    payload_xml(&fields)
}

/// The keys of a download body, and of one for a given version, are all
/// different.
proof fn lemma_download_keys_distinct(guid: Seq<char>, app_id: u64, version: Option<Seq<char>>)
    ensures
        distinct_keys(download_fields_spec(guid, app_id, version)),
        distinct_keys(
            download_fields_spec(guid, app_id, None).push(
                ("externalVersionId"@, FieldValue::Text(version->0)),
            ),
        ),
{
    reveal_strlit("creditDisplay");
    reveal_strlit("guid");
    reveal_strlit("salableAdamId");
    reveal_strlit("externalVersionId");
    let f = download_fields_spec(guid, app_id, version);
    assert forall|i: int, j: int| 0 <= i < j < f.len() implies f[i].0 != f[j].0 by {
        if f[i].0.len() == f[j].0.len() {
            assert(f[i].0[0] != f[j].0[0]);
        }
    }
    let g = download_fields_spec(guid, app_id, None).push(
        ("externalVersionId"@, FieldValue::Text(version->0)),
    );
    assert forall|i: int, j: int| 0 <= i < j < g.len() implies g[i].0 != g[j].0 by {
        if g[i].0.len() == g[j].0.len() {
            assert(g[i].0[0] != g[j].0[0]);
        }
    }
}

/// The body of a request for one given version: the version is always sent.
pub open spec fn version_fields_spec(guid: Seq<char>, app_id: u64, version_id: Seq<char>) -> Seq<
    (Seq<char>, FieldValue),
> {
    download_fields_spec(guid, app_id, None).push(
        ("externalVersionId"@, FieldValue::Text(version_id)),
    )
}

/// The XML body of a request for one given version of an app.
pub fn version_payload(guid: &str, app_id: u64, version_id: &str) -> (r: Result<
    Vec<u8>,
    IpaToolError,
>)
    ensures
        r matches Ok(b) && b@ == plist_xml(version_fields_spec(guid@, app_id, version_id@)),
{
    let mut v = base_download_fields(guid, app_id);
    let ghost base = fields_view(v@);
    v.push(text_field("externalVersionId", version_id));
    assert(fields_view(v@) =~= base.push(("externalVersionId"@, FieldValue::Text(version_id@))));
    proof {
        lemma_download_keys_distinct(guid@, app_id, Some(version_id@));
        lemma_inserted_distinct(version_fields_spec(guid@, app_id, version_id@));
    }
    payload_xml(&v)
}

/// The XML body of the request that lists an app's versions.
pub fn list_versions_payload(guid: &str, app_id: u64) -> (r: Result<Vec<u8>, IpaToolError>)
    ensures
        r matches Ok(b) && b@ == plist_xml(download_fields_spec(guid@, app_id, None)),
{
    let v = base_download_fields(guid, app_id);
    proof {
        lemma_download_keys_distinct(guid@, app_id, None);
        lemma_inserted_distinct(download_fields_spec(guid@, app_id, None));
    }
    payload_xml(&v)
}

/// The body holds `value` under `key`.
pub open spec fn holds_field(
    fields: Seq<(Seq<char>, FieldValue)>,
    key: Seq<char>,
    value: FieldValue,
) -> bool {
    exists|i: int| 0 <= i < fields.len() && #[trigger] fields[i] == (key, value)
}

/// A purchase body has twelve fields under twelve different keys: the fixed
/// values that the store's protocol asks for, the device's identifier, the
/// page of the app, the pricing parameters, and the app's identifier as a
/// number.
pub proof fn purchase_body_fields(guid: Seq<char>, app_id: u64, pricing: Seq<char>)
    ensures
        purchase_fields_spec(guid, app_id, pricing).len() == 12,
        distinct_keys(purchase_fields_spec(guid, app_id, pricing)),
        holds_field(purchase_fields_spec(guid, app_id, pricing), "appExtVrsId"@, FieldValue::Text("0"@)),
        holds_field(
            purchase_fields_spec(guid, app_id, pricing),
            "hasAskedToFulfillPreorder"@,
            FieldValue::Text("true"@),
        ),
        holds_field(
            purchase_fields_spec(guid, app_id, pricing),
            "buyWithoutAuthorization"@,
            FieldValue::Text("true"@),
        ),
        holds_field(
            purchase_fields_spec(guid, app_id, pricing),
            "hasDoneAgeCheck"@,
            FieldValue::Text("true"@),
        ),
        holds_field(purchase_fields_spec(guid, app_id, pricing), "guid"@, FieldValue::Text(guid)),
        holds_field(purchase_fields_spec(guid, app_id, pricing), "needDiv"@, FieldValue::Text("0"@)),
        holds_field(
            purchase_fields_spec(guid, app_id, pricing),
            "origPage"@,
            FieldValue::Text("Software-"@ + decimal(app_id as nat)),
        ),
        holds_field(
            purchase_fields_spec(guid, app_id, pricing),
            "origPageLocation"@,
            FieldValue::Text("Buy"@),
        ),
        holds_field(purchase_fields_spec(guid, app_id, pricing), "price"@, FieldValue::Text("0"@)),
        holds_field(
            purchase_fields_spec(guid, app_id, pricing),
            "pricingParameters"@,
            FieldValue::Text(pricing),
        ),
        holds_field(purchase_fields_spec(guid, app_id, pricing), "productType"@, FieldValue::Text("C"@)),
        holds_field(
            purchase_fields_spec(guid, app_id, pricing),
            "salableAdamId"@,
            FieldValue::Number(app_id),
        ),
{
    lemma_purchase_keys_distinct(guid, app_id, pricing);
    let f = purchase_fields_spec(guid, app_id, pricing);
    assert(f[0] == ("appExtVrsId"@, FieldValue::Text("0"@)));
    assert(f[1] == ("hasAskedToFulfillPreorder"@, FieldValue::Text("true"@)));
    assert(f[2] == ("buyWithoutAuthorization"@, FieldValue::Text("true"@)));
    assert(f[3] == ("hasDoneAgeCheck"@, FieldValue::Text("true"@)));
    assert(f[4] == ("guid"@, FieldValue::Text(guid)));
    assert(f[5] == ("needDiv"@, FieldValue::Text("0"@)));
    assert(f[6] == ("origPage"@, FieldValue::Text("Software-"@ + decimal(app_id as nat))));
    assert(f[7] == ("origPageLocation"@, FieldValue::Text("Buy"@)));
    assert(f[8] == ("price"@, FieldValue::Text("0"@)));
    assert(f[9] == ("pricingParameters"@, FieldValue::Text(pricing)));
    assert(f[10] == ("productType"@, FieldValue::Text("C"@)));
    assert(f[11] == ("salableAdamId"@, FieldValue::Number(app_id)));
}

/// A download body, and one for a given version, carry the empty credit
/// display, the device's identifier as given and the app's identifier as a
/// number; a version is asked for exactly when one is given and not empty.
pub proof fn download_body_fields(guid: Seq<char>, app_id: u64, version: Option<Seq<char>>)
    ensures
        holds_field(download_fields_spec(guid, app_id, version), "creditDisplay"@, FieldValue::Text(Seq::empty())),
        holds_field(download_fields_spec(guid, app_id, version), "guid"@, FieldValue::Text(guid)),
        holds_field(
            download_fields_spec(guid, app_id, version),
            "salableAdamId"@,
            FieldValue::Number(app_id),
        ),
        distinct_keys(download_fields_spec(guid, app_id, version)),
        version is Some && version->0.len() > 0 ==> download_fields_spec(guid, app_id, version).len()
            == 4 && holds_field(
            download_fields_spec(guid, app_id, version),
            "externalVersionId"@,
            FieldValue::Text(version->0),
        ),
        !(version is Some && version->0.len() > 0) ==> download_fields_spec(
            guid,
            app_id,
            version,
        ).len() == 3,
        forall|v: Seq<char>|
            holds_field(#[trigger] version_fields_spec(guid, app_id, v), "guid"@, FieldValue::Text(guid))
                && holds_field(
                version_fields_spec(guid, app_id, v),
                "externalVersionId"@,
                FieldValue::Text(v),
            ),
{
    lemma_download_keys_distinct(guid, app_id, version);
    let f = download_fields_spec(guid, app_id, version);
    assert(f[0] == ("creditDisplay"@, FieldValue::Text(Seq::empty())));
    assert(f[1] == ("guid"@, FieldValue::Text(guid)));
    assert(f[2] == ("salableAdamId"@, FieldValue::Number(app_id)));
    if version is Some && version->0.len() > 0 {
        assert(f[3] == ("externalVersionId"@, FieldValue::Text(version->0)));
    }
    assert forall|v: Seq<char>|
        holds_field(#[trigger] version_fields_spec(guid, app_id, v), "guid"@, FieldValue::Text(guid))
            && holds_field(
            version_fields_spec(guid, app_id, v),
            "externalVersionId"@,
            FieldValue::Text(v),
        ) by {
        let g = version_fields_spec(guid, app_id, v);
        assert(g[1] == ("guid"@, FieldValue::Text(guid)));
        assert(g[3] == ("externalVersionId"@, FieldValue::Text(v)));
    }
}

} // verus!
