//! SCIM schema definitions and the registry of the core schemas.

use vstd::prelude::*;
use crate::json::{Json, JsonValue, items_view, lemma_array_view};
use crate::text::str_eq;

verus! {

/// Data types of SCIM attributes.
#[derive(Debug, Clone, Copy, PartialEq, Eq, Structural)]
pub enum AttributeType {
    String,
    Boolean,
    Decimal,
    Integer,
    DateTime,
    Binary,
    Reference,
    Complex,
}

/// Definition of a SCIM attribute.
#[derive(Debug)]
pub struct AttributeDefinition {
    pub name: String,
    pub data_type: AttributeType,
    pub multi_valued: bool,
    pub required: bool,
    pub case_exact: bool,
    pub sub_attributes: Vec<AttributeDefinition>,
}

/// A SCIM schema.
#[derive(Debug)]
pub struct Schema {
    pub id: String,
    pub name: String,
    pub description: String,
    pub attributes: Vec<AttributeDefinition>,
}

/// Mathematical model of an attribute definition.
pub struct AttributeModel {
    pub name: Seq<char>,
    pub data_type: AttributeType,
    pub multi_valued: bool,
    pub required: bool,
    pub case_exact: bool,
    pub sub_attributes: Seq<AttributeModel>,
}

impl AttributeDefinition {
    /// The model of this attribute and its sub-attributes.
    pub open spec fn model(&self) -> AttributeModel
        decreases self,
    {
        AttributeModel {
            name: self.name@,
            data_type: self.data_type,
            multi_valued: self.multi_valued,
            required: self.required,
            case_exact: self.case_exact,
            sub_attributes: Seq::new(
                self.sub_attributes@.len(),
                |i: int|
                    if 0 <= i < self.sub_attributes@.len() {
                        self.sub_attributes@[i].model()
                    } else {
                        simple_attr(Seq::empty(), AttributeType::String)
                    },
            ),
        }
    }
}

/// The models of a sequence of attribute definitions.
pub open spec fn attribute_models(s: Seq<AttributeDefinition>) -> Seq<AttributeModel> {
    Seq::new(s.len(), |i: int| s[i].model())
}

/// A single-valued, optional, case-insensitive attribute without sub-attributes.
pub open spec fn simple_attr(name: Seq<char>, data_type: AttributeType) -> AttributeModel {
    AttributeModel {
        name,
        data_type,
        multi_valued: false,
        required: false,
        case_exact: false,
        sub_attributes: Seq::empty(),
    }
}

/// A required attribute otherwise like `simple_attr`.
pub open spec fn required_attr(name: Seq<char>, data_type: AttributeType) -> AttributeModel {
    AttributeModel { required: true, ..simple_attr(name, data_type) }
}

/// An optional complex attribute with the given sub-attributes.
pub open spec fn complex_attr(name: Seq<char>, multi_valued: bool, sub_attributes: Seq<AttributeModel>) -> AttributeModel {
    AttributeModel {
        name,
        data_type: AttributeType::Complex,
        multi_valued,
        required: false,
        case_exact: false,
        sub_attributes,
    }
}

/// The sub-attributes of a multi-valued attribute with value, display, type
/// and primary members (emails, phone numbers).
pub open spec fn contact_subs() -> Seq<AttributeModel> {
    seq![
        simple_attr("value"@, AttributeType::String),
        simple_attr("display"@, AttributeType::String),
        simple_attr("type"@, AttributeType::String),
        simple_attr("primary"@, AttributeType::Boolean),
    ]
}

/// The `meta` attribute of both core schemas.
pub open spec fn meta_model() -> AttributeModel {
    complex_attr(
        "meta"@,
        false,
        seq![
            simple_attr("resourceType"@, AttributeType::String),
            simple_attr("created"@, AttributeType::DateTime),
            simple_attr("lastModified"@, AttributeType::DateTime),
            simple_attr("location"@, AttributeType::Reference),
            simple_attr("version"@, AttributeType::String),
        ],
    )
}

/// The attributes of the core User schema.
pub open spec fn user_attributes() -> Seq<AttributeModel> {
    seq![
        simple_attr("id"@, AttributeType::String),
        simple_attr("externalId"@, AttributeType::String),
        required_attr("userName"@, AttributeType::String),
        complex_attr(
            "name"@,
            false,
            seq![
                simple_attr("formatted"@, AttributeType::String),
                simple_attr("familyName"@, AttributeType::String),
                simple_attr("givenName"@, AttributeType::String),
                simple_attr("middleName"@, AttributeType::String),
                simple_attr("honorificPrefix"@, AttributeType::String),
                simple_attr("honorificSuffix"@, AttributeType::String),
            ],
        ),
        simple_attr("displayName"@, AttributeType::String),
        simple_attr("nickName"@, AttributeType::String),
        simple_attr("profileUrl"@, AttributeType::Reference),
        simple_attr("title"@, AttributeType::String),
        simple_attr("userType"@, AttributeType::String),
        simple_attr("preferredLanguage"@, AttributeType::String),
        simple_attr("locale"@, AttributeType::String),
        simple_attr("timezone"@, AttributeType::String),
        simple_attr("active"@, AttributeType::Boolean),
        simple_attr("password"@, AttributeType::String),
        complex_attr("emails"@, true, contact_subs()),
        complex_attr("phoneNumbers"@, true, contact_subs()),
        complex_attr(
            "addresses"@,
            true,
            seq![
                simple_attr("formatted"@, AttributeType::String),
                simple_attr("streetAddress"@, AttributeType::String),
                simple_attr("locality"@, AttributeType::String),
                simple_attr("region"@, AttributeType::String),
                simple_attr("postalCode"@, AttributeType::String),
                simple_attr("country"@, AttributeType::String),
                simple_attr("type"@, AttributeType::String),
                simple_attr("primary"@, AttributeType::Boolean),
            ],
        ),
        complex_attr(
            "groups"@,
            true,
            seq![
                simple_attr("value"@, AttributeType::String),
                simple_attr("$ref"@, AttributeType::Reference),
                simple_attr("display"@, AttributeType::String),
                simple_attr("type"@, AttributeType::String),
            ],
        ),
        meta_model(),
    ]
}

/// The attributes of the core Group schema.
pub open spec fn group_attributes() -> Seq<AttributeModel> {
    seq![
        simple_attr("id"@, AttributeType::String),
        simple_attr("externalId"@, AttributeType::String),
        required_attr("displayName"@, AttributeType::String),
        complex_attr(
            "members"@,
            true,
            seq![
                simple_attr("value"@, AttributeType::String),
                simple_attr("$ref"@, AttributeType::Reference),
                simple_attr("type"@, AttributeType::String),
                simple_attr("display"@, AttributeType::String),
            ],
        ),
        meta_model(),
    ]
}

/// The registered schemas.
#[derive(Debug)]
pub struct SchemaRegistry {
    schemas: Vec<Schema>,
}

/// The URN of the core User schema.
pub open spec fn user_schema_id() -> Seq<char> {
    "urn:ietf:params:scim:schemas:core:2.0:User"@
}

/// The URN of the core Group schema.
pub open spec fn group_schema_id() -> Seq<char> {
    "urn:ietf:params:scim:schemas:core:2.0:Group"@
}

fn attr(name: &str, data_type: AttributeType) -> (r: AttributeDefinition)
    ensures
        r.name@ == name@,
        r.data_type == data_type,
        r.sub_attributes@.len() == 0,
        r.model() == simple_attr(name@, data_type),
{
    let r = AttributeDefinition {
        name: name.to_string(),
        data_type,
        multi_valued: false,
        required: false,
        case_exact: false,
        sub_attributes: Vec::new(),
    };
    assert(r.model().sub_attributes =~= Seq::<AttributeModel>::empty());
    r
}

fn complex(name: &str, multi_valued: bool, sub_attributes: Vec<AttributeDefinition>) -> (r: AttributeDefinition)
    ensures
        r.name@ == name@,
        r.data_type == AttributeType::Complex,
        r.multi_valued == multi_valued,
        r.sub_attributes == sub_attributes,
        r.model() == complex_attr(name@, multi_valued, attribute_models(sub_attributes@)),
{
    let r = AttributeDefinition {
        name: name.to_string(),
        data_type: AttributeType::Complex,
        multi_valued,
        required: false,
        case_exact: false,
        sub_attributes,
    };
    assert(r.model().sub_attributes =~= attribute_models(r.sub_attributes@));
    r
}

fn meta_attribute() -> (r: AttributeDefinition)
    ensures
        r.data_type == AttributeType::Complex,
        r.model() == meta_model(),
{
    let subs = vec![
        attr("resourceType", AttributeType::String),
        attr("created", AttributeType::DateTime),
        attr("lastModified", AttributeType::DateTime),
        attr("location", AttributeType::Reference),
        attr("version", AttributeType::String),
    ];
    assert(attribute_models(subs@) =~= meta_model().sub_attributes);
    complex("meta", false, subs)
}

fn contact_attributes() -> (r: Vec<AttributeDefinition>)
    ensures
        attribute_models(r@) == contact_subs(),
{
    let subs = vec![
        attr("value", AttributeType::String),
        attr("display", AttributeType::String),
        attr("type", AttributeType::String),
        attr("primary", AttributeType::Boolean),
    ];
    assert(attribute_models(subs@) =~= contact_subs());
    subs
}

fn user_schema() -> (r: Schema)
    ensures
        r.id@ == user_schema_id(),
        r.name@ == "User"@,
        attribute_models(r.attributes@) == user_attributes(),
{
    let mut user_name = attr("userName", AttributeType::String);
    user_name.required = true;
    let name_subs = vec![
        attr("formatted", AttributeType::String),
        attr("familyName", AttributeType::String),
        attr("givenName", AttributeType::String),
        attr("middleName", AttributeType::String),
        attr("honorificPrefix", AttributeType::String),
        attr("honorificSuffix", AttributeType::String),
    ];
    assert(attribute_models(name_subs@) =~= user_attributes()[3].sub_attributes);
    let address_subs = vec![
        attr("formatted", AttributeType::String),
        attr("streetAddress", AttributeType::String),
        attr("locality", AttributeType::String),
        attr("region", AttributeType::String),
        attr("postalCode", AttributeType::String),
        attr("country", AttributeType::String),
        attr("type", AttributeType::String),
        attr("primary", AttributeType::Boolean),
    ];
    assert(attribute_models(address_subs@) =~= user_attributes()[16].sub_attributes);
    let group_subs = vec![
        attr("value", AttributeType::String),
        attr("$ref", AttributeType::Reference),
        attr("display", AttributeType::String),
        attr("type", AttributeType::String),
    ];
    assert(attribute_models(group_subs@) =~= user_attributes()[17].sub_attributes);
    let attributes = vec![
        attr("id", AttributeType::String),
        attr("externalId", AttributeType::String),
        user_name,
        complex("name", false, name_subs),
        attr("displayName", AttributeType::String),
        attr("nickName", AttributeType::String),
        attr("profileUrl", AttributeType::Reference),
        attr("title", AttributeType::String),
        attr("userType", AttributeType::String),
        attr("preferredLanguage", AttributeType::String),
        attr("locale", AttributeType::String),
        attr("timezone", AttributeType::String),
        attr("active", AttributeType::Boolean),
        attr("password", AttributeType::String),
        complex("emails", true, contact_attributes()),
        complex("phoneNumbers", true, contact_attributes()),
        complex("addresses", true, address_subs),
        complex("groups", true, group_subs),
        meta_attribute(),
    ];
    assert(attribute_models(attributes@) =~= user_attributes());
    Schema {
        id: "urn:ietf:params:scim:schemas:core:2.0:User".to_string(),
        name: "User".to_string(),
        description: "User Account".to_string(),
        attributes,
    }
}

fn group_schema() -> (r: Schema)
    ensures
        r.id@ == group_schema_id(),
        r.name@ == "Group"@,
        attribute_models(r.attributes@) == group_attributes(),
{
    let mut display_name = attr("displayName", AttributeType::String);
    display_name.required = true;
    let member_subs = vec![
        attr("value", AttributeType::String),
        attr("$ref", AttributeType::Reference),
        attr("type", AttributeType::String),
        attr("display", AttributeType::String),
    ];
    assert(attribute_models(member_subs@) =~= group_attributes()[3].sub_attributes);
    let attributes = vec![
        attr("id", AttributeType::String),
        attr("externalId", AttributeType::String),
        display_name,
        complex("members", true, member_subs),
        meta_attribute(),
    ];
    assert(attribute_models(attributes@) =~= group_attributes());
    Schema {
        id: "urn:ietf:params:scim:schemas:core:2.0:Group".to_string(),
        name: "Group".to_string(),
        description: "Group".to_string(),
        attributes,
    }
}


/// The SCIM name of an attribute type.
pub open spec fn attribute_type_name(t: AttributeType) -> Seq<char> {
    match t {
        AttributeType::String => "string"@,
        AttributeType::Boolean => "boolean"@,
        AttributeType::Decimal => "decimal"@,
        AttributeType::Integer => "integer"@,
        AttributeType::DateTime => "dateTime"@,
        AttributeType::Binary => "binary"@,
        AttributeType::Reference => "reference"@,
        AttributeType::Complex => "complex"@,
    }
}

/// The JSON form of an attribute definition.
pub open spec fn attribute_json(a: AttributeDefinition) -> Json
    decreases a, 1int,
{
    Json::Object(Seq::empty()).set("name"@, Json::Str(a.name@)).set("type"@, Json::Str(attribute_type_name(a.data_type))).set(
        "multiValued"@,
        Json::Bool(a.multi_valued),
    ).set("required"@, Json::Bool(a.required)).set("caseExact"@, Json::Bool(a.case_exact)).set(
        "subAttributes"@,
        Json::Array(attributes_json(a.sub_attributes@)),
    )
}

/// The JSON forms of a sequence of attribute definitions.
pub open spec fn attributes_json(s: Seq<AttributeDefinition>) -> Seq<Json>
    decreases s, 0int,
{
    Seq::new(
        s.len(),
        |i: int|
            if 0 <= i < s.len() {
                attribute_json(s[i])
            } else {
                Json::Null
            },
    )
}

/// The JSON form of a schema.
pub open spec fn schema_json(s: Schema) -> Json {
    Json::Object(Seq::empty()).set("id"@, Json::Str(s.id@)).set("name"@, Json::Str(s.name@)).set(
        "description"@,
        Json::Str(s.description@),
    ).set("attributes"@, Json::Array(attributes_json(s.attributes@)))
}

impl AttributeType {
    /// The SCIM name of this type.
    pub fn name(&self) -> (r: &'static str)
        ensures
            r@ == attribute_type_name(*self),
    {
        match self {
            AttributeType::String => "string",
            AttributeType::Boolean => "boolean",
            AttributeType::Decimal => "decimal",
            AttributeType::Integer => "integer",
            AttributeType::DateTime => "dateTime",
            AttributeType::Binary => "binary",
            AttributeType::Reference => "reference",
            AttributeType::Complex => "complex",
        }
    }
}

impl AttributeDefinition {
    /// The JSON form of this definition.
    pub fn to_json(&self) -> (r: JsonValue)
        ensures
            r@ == attribute_json(*self),
        decreases self,
    {
        let mut subs: Vec<JsonValue> = Vec::new();
        let mut i: usize = 0;
        while i < self.sub_attributes.len()
            invariant
                i <= self.sub_attributes@.len(),
                subs@.len() == i,
                forall|j: int| 0 <= j < i ==> (#[trigger] subs@[j])@ == attribute_json(self.sub_attributes@[j]),
            decreases self.sub_attributes@.len() - i,
        {
            proof {
                assert(decreases_to!(*self => self.sub_attributes));
                assert(decreases_to!(self.sub_attributes => self.sub_attributes@));
                assert(decreases_to!(self.sub_attributes@ => self.sub_attributes@[i as int]));
            }
            subs.push(self.sub_attributes[i].to_json());
            i = i + 1;
        }
        proof {
            lemma_array_view(subs);
            assert(items_view(subs@) =~= attributes_json(self.sub_attributes@));
        }
        JsonValue::object().with("name", JsonValue::text(self.name.as_str())).with(
            "type",
            JsonValue::text(self.data_type.name()),
        ).with("multiValued", JsonValue::Bool(self.multi_valued)).with("required", JsonValue::Bool(self.required)).with(
            "caseExact",
            JsonValue::Bool(self.case_exact),
        ).with("subAttributes", JsonValue::Array(subs))
    }
}

impl Schema {
    /// The JSON form of this schema.
    pub fn to_json(&self) -> (r: JsonValue)
        ensures
            r@ == schema_json(*self),
    {
        let mut attrs: Vec<JsonValue> = Vec::new();
        let mut i: usize = 0;
        while i < self.attributes.len()
            invariant
                i <= self.attributes@.len(),
                attrs@.len() == i,
                forall|j: int| 0 <= j < i ==> (#[trigger] attrs@[j])@ == attribute_json(self.attributes@[j]),
            decreases self.attributes@.len() - i,
        {
            attrs.push(self.attributes[i].to_json());
            i = i + 1;
        }
        proof {
            lemma_array_view(attrs);
            assert(items_view(attrs@) =~= attributes_json(self.attributes@));
        }
        JsonValue::object().with("id", JsonValue::text(self.id.as_str())).with("name", JsonValue::text(self.name.as_str())).with(
            "description",
            JsonValue::text(self.description.as_str()),
        ).with("attributes", JsonValue::Array(attrs))
    }
}

impl SchemaRegistry {
    /// The registered schemas.
    pub closed spec fn schema_seq(&self) -> Seq<Schema> {
        self.schemas@
    }

    /// A registry holding the core User and Group schemas.
    pub fn new() -> (r: Result<SchemaRegistry, String>)
        ensures
            r matches Ok(reg) && reg.schema_seq().len() == 2 && reg.schema_seq()[0].id@ == user_schema_id()
                && reg.schema_seq()[1].id@ == group_schema_id() && reg.schema_seq()[0].name@ == "User"@
                && reg.schema_seq()[1].name@ == "Group"@
                && attribute_models(reg.schema_seq()[0].attributes@) == user_attributes()
                && attribute_models(reg.schema_seq()[1].attributes@) == group_attributes(),
    {
        Ok(SchemaRegistry { schemas: vec![user_schema(), group_schema()] })
    }

    /// A registry holding the given schemas.
    pub fn with_schemas(schemas: Vec<Schema>) -> (r: SchemaRegistry)
        ensures
            r.schema_seq() == schemas@,
    {
        SchemaRegistry { schemas }
    }

    /// The registered schemas.
    pub fn get_schemas(&self) -> (r: &Vec<Schema>)
        ensures
            r@ == self.schema_seq(),
    {
        &self.schemas
    }

    /// The first schema with the given id.
    pub fn get_schema(&self, id: &str) -> (r: Option<&Schema>)
        ensures
            match r {
                Some(s) => s.id@ == id@ && exists|i: int| 0 <= i < self.schema_seq().len() && self.schema_seq()[i] == *s
                    && forall|j: int| 0 <= j < i ==> (#[trigger] self.schema_seq()[j]).id@ != id@,
                None => forall|j: int| 0 <= j < self.schema_seq().len() ==> (#[trigger] self.schema_seq()[j]).id@ != id@,
            },
    {
        let mut i: usize = 0;
        while i < self.schemas.len()
            invariant
                i <= self.schemas@.len(),
                forall|j: int| 0 <= j < i ==> (#[trigger] self.schemas@[j]).id@ != id@,
            decreases self.schemas@.len() - i,
        {
            if str_eq(self.schemas[i].id.as_str(), id) {
                assert(self.schema_seq()[i as int] == self.schemas@[i as int]);
                return Some(&self.schemas[i]);
            }
            i = i + 1;
        }
        None
    }
}

} // verus!
