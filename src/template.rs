use vstd::prelude::*;
use vstd::string::StringExecFns;
use crate::text::{is_blank, same_text, trimmed};

verus! {

/// The kinds of form field a worker can fill.
#[derive(Debug, Clone, Copy, PartialEq, Eq, Structural)]
pub enum FieldType {
    Text,
    Email,
    Number,
    Select,
    Textarea,
}

/// A form field with its selector and current value.
#[derive(Debug, Clone)]
pub struct FormField {
    pub name: String,
    /// CSS selector for the field
    pub selector: String,
    pub value: String,
    pub field_type: FieldType,
    pub is_required: bool,
    /// Choices, for dropdown fields
    pub dropdown_options: Option<Vec<String>>,
}

/// The texts of a list of strings.
pub open spec fn texts(v: Seq<String>) -> Seq<Seq<char>> {
    v.map_values(|s: String| s@)
}

/// A field is valid when it is optional or holds more than white space.
pub open spec fn field_valid(f: FormField) -> bool {
    !f.is_required || trimmed(f.value@).len() > 0
}

/// Copies a list of strings.
pub fn copy_texts(v: &Vec<String>) -> (r: Vec<String>)
    ensures
        texts(r@) == texts(v@),
{
    let mut r: Vec<String> = Vec::new();
    let mut i: usize = 0;
    while i < v.len()
        invariant
            i <= v@.len(),
            r@.len() == i,
            forall|k: int| 0 <= k < i ==> r@[k]@ == v@[k]@,
        decreases v@.len() - i,
    {
        r.push(v[i].clone());
        i = i + 1;
    }
    assert(texts(r@) =~= texts(v@));
    r
}

impl FormField {
    pub fn new(name: &str, selector: &str, field_type: FieldType) -> (r: FormField)
        ensures
            r.name@ == name@,
            r.selector@ == selector@,
            r.value@.len() == 0,
            r.field_type == field_type,
            r.is_required,
            r.dropdown_options is None,
    {
        FormField {
            name: String::from_str(name),
            selector: String::from_str(selector),
            value: String::new(),
            field_type,
            is_required: true,
            dropdown_options: None,
        }
    }

    pub fn with_value(self, value: &str) -> (r: FormField)
        ensures
            r.value@ == value@,
            r == (FormField { value: r.value, ..self }),
    {
        let mut f = self;
        f.value = String::from_str(value);
        f
    }

    pub fn with_required(self, required: bool) -> (r: FormField)
        ensures
            r == (FormField { is_required: required, ..self }),
    {
        let mut f = self;
        f.is_required = required;
        f
    }

    pub fn with_dropdown_options(self, options: Vec<String>) -> (r: FormField)
        ensures
            r == (FormField { dropdown_options: Some(options), ..self }),
    {
        let mut f = self;
        f.dropdown_options = Some(options);
        f
    }

    /// The label shown for the field, marking optional ones.
    pub fn get_display_label(&self) -> (r: String)
        ensures
            self.is_required ==> r@ == self.name@,
            !self.is_required ==> r@ == self.name@ + " (optional)"@,
    {
        if self.is_required {
            self.name.clone()
        } else {
            self.name.clone().concat(" (optional)")
        }
    }

    /// Required fields must hold more than white space.
    pub fn is_valid(&self) -> (r: bool)
        ensures
            r == field_valid(*self),
    {
        if !self.is_required {
            return true;
        }
        !is_blank(self.value.as_str())
    }

    /// The dropdown choices, or none for other fields.
    pub fn get_dropdown_options(&self) -> (r: Vec<String>)
        ensures
            match self.dropdown_options {
                Some(o) => texts(r@) == texts(o@),
                None => r@.len() == 0,
            },
    {
        match &self.dropdown_options {
            Some(o) => copy_texts(o),
            None => Vec::new(),
        }
    }
}

/// The value stored for `key` in a list of name/value pairs, by first match.
pub open spec fn lookup(s: Seq<(String, String)>, key: Seq<char>) -> Option<Seq<char>>
    decreases s.len(),
{
    if s.len() == 0 {
        None
    } else if s[0].0@ == key {
        Some(s[0].1@)
    } else {
        lookup(s.drop_first(), key)
    }
}

/// No name occurs twice.
pub open spec fn keys_unique(s: Seq<(String, String)>) -> bool {
    forall|i: int, j: int| 0 <= i < j < s.len() ==> s[i].0@ != s[j].0@
}

proof fn lemma_lookup_found(s: Seq<(String, String)>, i: int)
    requires
        0 <= i < s.len(),
        forall|k: int| 0 <= k < i ==> s[k].0@ != s[i].0@,
    ensures
        lookup(s, s[i].0@) == Some(s[i].1@),
    decreases i,
{
    if i > 0 {
        lemma_lookup_found(s.drop_first(), i - 1);
    }
}

proof fn lemma_lookup_absent(s: Seq<(String, String)>, key: Seq<char>)
    requires
        forall|k: int| 0 <= k < s.len() ==> s[k].0@ != key,
    ensures
        lookup(s, key) is None,
    decreases s.len(),
{
    if s.len() > 0 {
        lemma_lookup_absent(s.drop_first(), key);
    }
}

proof fn lemma_lookup_index(s: Seq<(String, String)>, key: Seq<char>)
    ensures
        lookup(s, key) is None <==> forall|k: int| 0 <= k < s.len() ==> s[k].0@ != key,
        lookup(s, key) is Some ==> exists|k: int|
            0 <= k < s.len() && s[k].0@ == key && lookup(s, key) == Some(s[k].1@),
    decreases s.len(),
{
    if s.len() > 0 {
        lemma_lookup_index(s.drop_first(), key);
        if s[0].0@ != key && lookup(s, key) is Some {
            let k = choose|k: int|
                0 <= k < s.len() - 1 && s.drop_first()[k].0@ == key && lookup(s, key) == Some(
                    s.drop_first()[k].1@,
                );
            assert(s[k + 1].0@ == key);
        }
        if lookup(s, key) is None {
            assert forall|k: int| 0 <= k < s.len() implies s[k].0@ != key by {
                if k > 0 {
                    assert(s[k] == s.drop_first()[k - 1]);
                }
            }
        }
    }
}

/// A template holds predefined values for form fields, by field name.
#[derive(Debug, Clone)]
pub struct AutomationTemplate {
    pub name: String,
    pub description: String,
    /// field name -> value
    pub field_values: Vec<(String, String)>,
}

impl AutomationTemplate {
    pub open spec fn wf(self) -> bool {
        keys_unique(self.field_values@)
    }

    /// The value the template gives a field, if any.
    pub open spec fn value_for(self, field: Seq<char>) -> Option<Seq<char>> {
        lookup(self.field_values@, field)
    }

    pub fn new(name: &str, description: &str) -> (r: AutomationTemplate)
        ensures
            r.wf(),
            r.name@ == name@,
            r.description@ == description@,
            r.field_values@.len() == 0,
    {
        AutomationTemplate {
            name: String::from_str(name),
            description: String::from_str(description),
            field_values: Vec::new(),
        }
    }

    /// Position of the pair named `key`.
    fn position(&self, key: &str) -> (r: Option<usize>)
        requires
            self.wf(),
        ensures
            match r {
                Some(i) => i < self.field_values@.len() && self.field_values@[i as int].0@ == key@,
                None => forall|k: int|
                    0 <= k < self.field_values@.len() ==> self.field_values@[k].0@ != key@,
            },
    {
        let mut i: usize = 0;
        while i < self.field_values.len()
            invariant
                i <= self.field_values@.len(),
                forall|k: int| 0 <= k < i ==> self.field_values@[k].0@ != key@,
            decreases self.field_values@.len() - i,
        {
            if same_text(self.field_values[i].0.as_str(), key) {
                return Some(i);
            }
            i = i + 1;
        }
        None
    }

    /// Sets the value for `field_name`, replacing an earlier one.
    pub fn with_field(self, field_name: &str, value: &str) -> (r: AutomationTemplate)
        requires
            self.wf(),
        ensures
            r.wf(),
            r.name == self.name,
            r.description == self.description,
            r.value_for(field_name@) == Some(value@),
            forall|k: Seq<char>| k != field_name@ ==> r.value_for(k) == self.value_for(k),
    {
        let mut t = self;
        let ghost old_fv = t.field_values@;
        let ghost mut w: int = 0;
        match t.position(field_name) {
            Some(i) => {
                t.field_values[i].1 = String::from_str(value);
                proof {
                    w = i as int;
                }
            },
            None => {
                t.field_values.push((String::from_str(field_name), String::from_str(value)));
                proof {
                    w = old_fv.len() as int;
                }
            },
        }
        proof {
            let s = t.field_values@;
            assert(keys_unique(s));
            assert forall|j: int| 0 <= j < old_fv.len() && old_fv[j].0@ != field_name@ implies s[j]
                == old_fv[j] by {}
            assert(0 <= w < s.len() && s[w].0@ == field_name@ && s[w].1@ == value@);
            lemma_lookup_found(s, w);
            assert forall|k: Seq<char>| k != field_name@ implies lookup(s, k) == lookup(
                old_fv,
                k,
            ) by {
                lemma_lookup_index(s, k);
                lemma_lookup_index(old_fv, k);
                if lookup(s, k) is Some {
                    let j = choose|j: int|
                        0 <= j < s.len() && s[j].0@ == k && lookup(s, k) == Some(s[j].1@);
                    assert(j < old_fv.len());
                    lemma_lookup_found(old_fv, j);
                } else if lookup(old_fv, k) is Some {
                    let j = choose|j: int|
                        0 <= j < old_fv.len() && old_fv[j].0@ == k && lookup(old_fv, k) == Some(
                            old_fv[j].1@,
                        );
                    assert(s[j].0@ == k);
                }
            }
        }
        t
    }

    /// Copies this template's values into the fields it names.
    pub fn apply_to_fields(&self, fields: &mut Vec<FormField>)
        requires
            self.wf(),
        ensures
            final(fields)@.len() == old(fields)@.len(),
            forall|i: int|
                #![trigger final(fields)@[i]]
                0 <= i < old(fields)@.len() ==> final(fields)@[i] == (FormField {
                    value: final(fields)@[i].value,
                    ..old(fields)@[i]
                }) && final(fields)@[i].value@ == match self.value_for(old(fields)@[i].name@) {
                    Some(v) => v,
                    None => old(fields)@[i].value@,
                },
    {
        let ghost start = fields@;
        let mut i: usize = 0;
        while i < fields.len()
            invariant
                self.wf(),
                fields@.len() == start.len(),
                i <= start.len(),
                forall|k: int|
                    #![trigger fields@[k]]
                    0 <= k < start.len() ==> fields@[k] == (FormField {
                        value: fields@[k].value,
                        ..start[k]
                    }) && fields@[k].value@ == if k < i {
                        match self.value_for(start[k].name@) {
                            Some(v) => v,
                            None => start[k].value@,
                        }
                    } else {
                        start[k].value@
                    },
            decreases start.len() - i,
        {
            match self.position(fields[i].name.as_str()) {
                Some(j) => {
                    proof {
                        lemma_lookup_found(self.field_values@, j as int);
                    }
                    fields[i].value = self.field_values[j].1.clone();
                },
                None => {
                    proof {
                        lemma_lookup_absent(self.field_values@, start[i as int].name@);
                    }
                },
            }
            i = i + 1;
        }
    }
}

/// Configuration for the target website and form.
#[derive(Debug, Clone)]
pub struct WebsiteConfig {
    pub name: String,
    pub url: String,
    pub login_url: String,
    pub form_url: String,
    pub username_selector: String,
    pub password_selector: String,
    pub submit_selector: String,
}

impl WebsiteConfig {
    /// The built-in target site.
    pub fn default() -> (r: WebsiteConfig)
        ensures
            r.name@ == "Company Portal"@,
            r.url@ == "https://yourcompany.com"@,
            r.login_url@ == "https://yourcompany.com/login"@,
            r.form_url@ == "https://yourcompany.com/form"@,
            r.username_selector@ == "#username"@,
            r.password_selector@ == "#password"@,
            r.submit_selector@ == "#submit"@,
    {
        WebsiteConfig {
            name: String::from_str("Company Portal"),
            url: String::from_str("https://yourcompany.com"),
            login_url: String::from_str("https://yourcompany.com/login"),
            form_url: String::from_str("https://yourcompany.com/form"),
            username_selector: String::from_str("#username"),
            password_selector: String::from_str("#password"),
            submit_selector: String::from_str("#submit"),
        }
    }
}

} // verus!

verus! {

/// Two fields hold the same content.
pub open spec fn same_field(a: FormField, b: FormField) -> bool {
    &&& a.name == b.name
    &&& a.selector == b.selector
    &&& a.value == b.value
    &&& a.field_type == b.field_type
    &&& a.is_required == b.is_required
    &&& match (a.dropdown_options, b.dropdown_options) {
        (Some(x), Some(y)) => texts(x@) == texts(y@),
        (None, None) => true,
        _ => false,
    }
}

/// Two field lists hold the same content, field by field.
pub open spec fn same_fields(a: Seq<FormField>, b: Seq<FormField>) -> bool {
    a.len() == b.len() && forall|i: int| 0 <= i < a.len() ==> same_field(#[trigger] a[i], b[i])
}

impl FormField {
    /// A copy of the field.
    pub fn duplicate(&self) -> (r: FormField)
        ensures
            same_field(r, *self),
    {
        FormField {
            name: self.name.clone(),
            selector: self.selector.clone(),
            value: self.value.clone(),
            field_type: self.field_type,
            is_required: self.is_required,
            dropdown_options: match &self.dropdown_options {
                Some(o) => Some(copy_texts(o)),
                None => None,
            },
        }
    }
}

/// A copy of a list of fields.
pub fn copy_fields(v: &Vec<FormField>) -> (r: Vec<FormField>)
    ensures
        same_fields(r@, v@),
{
    let mut r: Vec<FormField> = Vec::new();
    let mut i: usize = 0;
    while i < v.len()
        invariant
            i <= v@.len(),
            r@.len() == i,
            forall|k: int| 0 <= k < i ==> same_field(#[trigger] r@[k], v@[k]),
        decreases v@.len() - i,
    {
        r.push(v[i].duplicate());
        i = i + 1;
    }
    r
}

impl WebsiteConfig {
    /// A copy of the configuration.
    pub fn duplicate(&self) -> (r: WebsiteConfig)
        ensures
            r == *self,
    {
        WebsiteConfig {
            name: self.name.clone(),
            url: self.url.clone(),
            login_url: self.login_url.clone(),
            form_url: self.form_url.clone(),
            username_selector: self.username_selector.clone(),
            password_selector: self.password_selector.clone(),
            submit_selector: self.submit_selector.clone(),
        }
    }
}

} // verus!
