//! Construction of the multipart forms sent to the service: one for
//! creating an entry, one for managing an existing one. All usage errors
//! are caught here, before anything touches the network.

use vstd::prelude::*;
use vstd::string::StringExecFns;

use crate::expiry::{spec_expiry_dec, Expiry};
use crate::target::{Target, TargetV, UrlPartsV};

verus! {

/// The value of one form part, at the spec level.
pub enum PartValueV {
    /// Literal text.
    Text(Seq<char>),
    /// The contents of the file at this path, attached as binary.
    FilePath(Seq<char>),
}

/// The value of one form part: literal text, or a file to attach.
#[derive(Clone, Debug)]
pub enum PartValue {
    /// Literal text.
    Text(String),
    /// The contents of the file at this path, attached as binary.
    FilePath(String),
}

impl View for PartValue {
    type V = PartValueV;

    open spec fn view(&self) -> PartValueV {
        match self {
            PartValue::Text(t) => PartValueV::Text(t@),
            PartValue::FilePath(p) => PartValueV::FilePath(p@),
        }
    }
}

/// One named part of a multipart form, at the spec level.
pub struct FormFieldV {
    /// The field name.
    pub name: Seq<char>,
    /// The field value.
    pub value: PartValueV,
}

/// One named part of a multipart form.
#[derive(Clone, Debug)]
pub struct FormField {
    /// The field name.
    pub name: String,
    /// The field value.
    pub value: PartValue,
}

impl View for FormField {
    type V = FormFieldV;

    open spec fn view(&self) -> FormFieldV {
        FormFieldV { name: self.name@, value: self.value@ }
    }
}

impl DeepView for FormField {
    type V = FormFieldV;

    open spec fn deep_view(&self) -> FormFieldV {
        self@
    }
}

/// A combination of flags the service cannot serve, reported before any
/// network call.
#[derive(Clone, Copy, Debug, PartialEq, Eq, Structural)]
pub enum UsageError {
    /// Shortening applies to URLs, not to file uploads.
    ShortenWithFile,
    /// The service accepts an expiry for files only, not for URLs.
    ExpiresWithUrl,
    /// A management request must not both delete and set an expiry.
    BothDeleteAndExpires,
    /// A management request must either delete or set an expiry.
    NoManageAction,
}

/// The creation form owed for the given inputs. Exactly one primary field
/// comes first — `file` for a file target, `url` or (when shortening)
/// `shorten` for a URL target — then `secret` when an unguessable URL was
/// asked for, then `expires`. Shortening a file target and expiring a URL
/// target are rejected.
pub open spec fn spec_create_form(
    target: TargetV,
    shorten: bool,
    secret: bool,
    expires: Option<Expiry>,
) -> Result<Seq<FormFieldV>, UsageError> {
    if target is File && shorten {
        Err(UsageError::ShortenWithFile)
    } else if target is Url && expires is Some {
        Err(UsageError::ExpiresWithUrl)
    } else {
        let primary = match target {
            TargetV::File(path) => FormFieldV {
                name: "file"@,
                value: PartValueV::FilePath(path),
            },
            TargetV::Url(u) => FormFieldV {
                name: if shorten {
                    "shorten"@
                } else {
                    "url"@
                },
                value: PartValueV::Text(u.serialized),
            },
        };
        let with_secret = if secret {
            seq![primary, FormFieldV { name: "secret"@, value: PartValueV::Text(Seq::<char>::empty()) }]
        } else {
            seq![primary]
        };
        match expires {
            Some(e) => Ok(
                with_secret + seq![
                    FormFieldV { name: "expires"@, value: PartValueV::Text(spec_expiry_dec(e)) },
                ],
            ),
            None => Ok(with_secret),
        }
    }
}

/// Builds the creation form, or reports the usage error, exactly as
/// spec_create_form says.
pub fn build_create_form(
    target: Target,
    shorten: bool,
    secret: bool,
    expires: Option<Expiry>,
) -> (r: Result<Vec<FormField>, UsageError>)
    ensures
        r is Ok <==> spec_create_form(target@, shorten, secret, expires) is Ok,
        r matches Ok(v) ==> spec_create_form(target@, shorten, secret, expires) == Ok::<
            Seq<FormFieldV>,
            UsageError,
        >(v.deep_view()),
        r matches Err(e) ==> spec_create_form(target@, shorten, secret, expires) == Err::<
            Seq<FormFieldV>,
            UsageError,
        >(e),
{
    let ghost target_view = target@;
    let is_file = match &target {
        Target::File(_) => true,
        Target::Url(_) => false,
    };
    if is_file && shorten {
        return Err(UsageError::ShortenWithFile);
    }
    if !is_file && expires.is_some() {
        return Err(UsageError::ExpiresWithUrl);
    }
    let mut fields: Vec<FormField> = Vec::new();
    match target {
        Target::File(path) => {
            fields.push(
                FormField { name: String::from_str("file"), value: PartValue::FilePath(path) },
            );
        },
        Target::Url(u) => {
            let name = if shorten {
                String::from_str("shorten")
            } else {
                String::from_str("url")
            };
            fields.push(FormField { name, value: PartValue::Text(u.serialized) });
        },
    }
    if secret {
        fields.push(
            FormField { name: String::from_str("secret"), value: PartValue::Text(String::new()) },
        );
    }
    match expires {
        Some(e) => {
            fields.push(
                FormField { name: String::from_str("expires"), value: PartValue::Text(e.encode()) },
            );
        },
        None => {},
    }
    proof {
        assert(spec_create_form(target_view, shorten, secret, expires) matches Ok(s) && s
            =~= fields.deep_view());
    }
    Ok(fields)
}

/// The management form owed for the given inputs: a `token` field, then
/// exactly one of an empty `delete` field or a decimal `expires` field.
/// Asking for both actions, or for neither, is rejected.
pub open spec fn spec_manage_form(
    token: Seq<char>,
    delete: bool,
    expires: Option<Expiry>,
) -> Result<Seq<FormFieldV>, UsageError> {
    if delete && expires is Some {
        Err(UsageError::BothDeleteAndExpires)
    } else if !delete && expires is None {
        Err(UsageError::NoManageAction)
    } else {
        let action = if delete {
            FormFieldV { name: "delete"@, value: PartValueV::Text(Seq::<char>::empty()) }
        } else {
            FormFieldV {
                name: "expires"@,
                value: PartValueV::Text(spec_expiry_dec(expires->Some_0)),
            }
        };
        Ok(seq![FormFieldV { name: "token"@, value: PartValueV::Text(token) }, action])
    }
}

/// Builds the management form, or reports the usage error, exactly as
/// spec_manage_form says.
pub fn build_manage_form(token: String, delete: bool, expires: Option<Expiry>) -> (r: Result<
    Vec<FormField>,
    UsageError,
>)
    ensures
        r is Ok <==> spec_manage_form(token@, delete, expires) is Ok,
        r matches Ok(v) ==> spec_manage_form(token@, delete, expires) == Ok::<
            Seq<FormFieldV>,
            UsageError,
        >(v.deep_view()),
        r matches Err(e) ==> spec_manage_form(token@, delete, expires) == Err::<
            Seq<FormFieldV>,
            UsageError,
        >(e),
{
    let ghost token_view = token@;
    if delete && expires.is_some() {
        return Err(UsageError::BothDeleteAndExpires);
    }
    if !delete && expires.is_none() {
        return Err(UsageError::NoManageAction);
    }
    let mut fields: Vec<FormField> = Vec::new();
    fields.push(FormField { name: String::from_str("token"), value: PartValue::Text(token) });
    if delete {
        fields.push(
            FormField { name: String::from_str("delete"), value: PartValue::Text(String::new()) },
        );
    } else {
        let e = match expires {
            Some(e) => e,
            None => {
                proof {
                    assert(false);
                }
                Expiry::Hours(0)
            },
        };
        fields.push(
            FormField { name: String::from_str("expires"), value: PartValue::Text(e.encode()) },
        );
    }
    proof {
        assert(spec_manage_form(token_view, delete, expires) matches Ok(s) && s
            =~= fields.deep_view());
    }
    Ok(fields)
}

/// A creation form built for a URL target with shortening requested (and no
/// expiry, which shortening excludes) is accepted, opens with a `shorten`
/// field, and carries no `url` and no `file` field.
pub proof fn lemma_shorten_form_fields(u: UrlPartsV, secret: bool)
    ensures
        spec_create_form(TargetV::Url(u), true, secret, None) matches Ok(fields) && fields[0].name
            == "shorten"@ && forall|i: int|
            0 <= i < fields.len() ==> #[trigger] fields[i].name != "url"@ && fields[i].name
                != "file"@,
{
    reveal_strlit("shorten");
    reveal_strlit("url");
    reveal_strlit("file");
    reveal_strlit("secret");
    let fields = spec_create_form(TargetV::Url(u), true, secret, None)->Ok_0;
    assert(fields[0].name == "shorten"@);
    assert forall|i: int| 0 <= i < fields.len() implies #[trigger] fields[i].name != "url"@
        && fields[i].name != "file"@ by {
        assert("shorten"@.len() == 7);
        assert("secret"@.len() == 6);
        assert("url"@.len() == 3);
        assert("file"@.len() == 4);
        if i == 0 {
            assert(fields[i].name == "shorten"@);
        } else {
            assert(i == 1 && secret);
            assert(fields[i].name == "secret"@);
        }
    }
}

/// Shortening a file target is rejected, whatever the other inputs are,
/// before any network call.
pub proof fn lemma_shorten_with_file_rejected(
    path: Seq<char>,
    secret: bool,
    expires: Option<Expiry>,
)
    ensures
        spec_create_form(TargetV::File(path), true, secret, expires) == Err::<
            Seq<FormFieldV>,
            UsageError,
        >(UsageError::ShortenWithFile),
{
}

/// A management form is accepted exactly when one of deletion and expiry is
/// requested and the other is not.
pub proof fn lemma_manage_form_one_action(token: Seq<char>, delete: bool, expires: Option<Expiry>)
    ensures
        spec_manage_form(token, delete, expires) is Ok <==> (delete != (expires is Some)),
{
}

/// A management form built for deletion carries exactly the `token` field
/// and an empty `delete` field; no `expires` field appears.
pub proof fn lemma_delete_form_fields(token: Seq<char>)
    ensures
        spec_manage_form(token, true, None) matches Ok(fields) && fields =~= seq![
            FormFieldV { name: "token"@, value: PartValueV::Text(token) },
            FormFieldV { name: "delete"@, value: PartValueV::Text(Seq::<char>::empty()) },
        ] && forall|i: int| 0 <= i < fields.len() ==> #[trigger] fields[i].name != "expires"@,
{
    reveal_strlit("token");
    reveal_strlit("delete");
    reveal_strlit("expires");
    let fields = spec_manage_form(token, true, None)->Ok_0;
    assert forall|i: int| 0 <= i < fields.len() implies #[trigger] fields[i].name != "expires"@ by {
        assert("token"@.len() == 5);
        assert("delete"@.len() == 6);
        assert("expires"@.len() == 7);
        if i == 0 {
            assert(fields[i].name == "token"@);
        } else {
            assert(i == 1);
            assert(fields[i].name == "delete"@);
        }
    }
}

} // verus!
