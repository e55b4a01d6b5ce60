use vstd::prelude::*;
use vstd::string::StringExecFns;
use crate::template::{field_valid, AutomationTemplate, FieldType, FormField, WebsiteConfig};

verus! {

/// Login name and password handed to the worker.
#[derive(Debug, Clone)]
pub struct Credentials {
    pub username: String,
    pub password: String,
}

/// Every template of the list is well formed.
pub open spec fn templates_wf(s: Seq<AutomationTemplate>) -> bool {
    forall|i: int| 0 <= i < s.len() ==> (#[trigger] s[i]).wf()
}

/// The message for a required field left empty.
pub open spec fn required_message(name: Seq<char>) -> Seq<char> {
    "'"@ + name + "' is required"@
}

/// The messages for the invalid fields of `s`, in field order.
pub open spec fn validation_errors(s: Seq<FormField>) -> Seq<Seq<char>>
    decreases s.len(),
{
    if s.len() == 0 {
        Seq::empty()
    } else if field_valid(s.last()) {
        validation_errors(s.drop_last())
    } else {
        validation_errors(s.drop_last()).push(required_message(s.last().name@))
    }
}

/// Every field of `s` is valid.
pub open spec fn all_valid(s: Seq<FormField>) -> bool {
    forall|i: int| 0 <= i < s.len() ==> field_valid(#[trigger] s[i])
}

pub proof fn lemma_errors_empty(s: Seq<FormField>)
    ensures
        validation_errors(s).len() == 0 <==> all_valid(s),
    decreases s.len(),
{
    if s.len() > 0 {
        lemma_errors_empty(s.drop_last());
        if all_valid(s) {
            assert(all_valid(s.drop_last()));
        }
        if validation_errors(s).len() == 0 {
            assert forall|i: int| 0 <= i < s.len() implies field_valid(#[trigger] s[i]) by {
                if i < s.len() - 1 {
                    assert(s[i] == s.drop_last()[i]);
                }
            }
        }
    }
}

/// The texts a list of strings holds.
pub open spec fn string_texts(v: Seq<String>) -> Seq<Seq<char>> {
    v.map_values(|s: String| s@)
}

/// The messages for required fields left empty.
pub fn collect_validation_errors(fields: &Vec<FormField>) -> (r: Vec<String>)
    ensures
        string_texts(r@) == validation_errors(fields@),
{
    let mut errors: Vec<String> = Vec::new();
    let mut i: usize = 0;
    while i < fields.len()
        invariant
            i <= fields@.len(),
            string_texts(errors@) == validation_errors(fields@.subrange(0, i as int)),
        decreases fields@.len() - i,
    {
        let ghost before = errors@;
        assert(fields@.subrange(0, i + 1).drop_last() =~= fields@.subrange(0, i as int));
        if !fields[i].is_valid() {
            let msg = String::from_str("'").concat(fields[i].name.as_str()).concat("' is required");
            errors.push(msg);
            assert(string_texts(errors@) =~= string_texts(before).push(msg@));
        }
        i = i + 1;
    }
    assert(fields@.subrange(0, i as int) =~= fields@);
    errors
}

fn make_template(name: &str, description: &str, values: [&str; 5]) -> (r: AutomationTemplate)
    ensures
        r.wf(),
        r.name@ == name@,
{
    AutomationTemplate::new(name, description).with_field("Project Name", values[0]).with_field(
        "Department",
        values[1],
    ).with_field("Priority Level", values[2]).with_field("Description", values[3]).with_field(
        "Contact Email",
        values[4],
    )
}

/// State of the automation mode: the form, its templates and whether a run
/// is in flight.
#[derive(Debug, Clone)]
pub struct AutomationState {
    /// The form fields for the website
    pub fields: Vec<FormField>,
    /// Available templates
    pub templates: Vec<AutomationTemplate>,
    /// Currently selected template index
    pub selected_template: Option<usize>,
    /// Currently focused field index
    pub focused_field: usize,
    /// Whether an automation run is in flight
    pub is_running: bool,
    /// Website configuration
    pub website_config: WebsiteConfig,
}

impl AutomationState {
    pub open spec fn wf(self) -> bool {
        templates_wf(self.templates@)
    }

    pub fn new() -> (r: AutomationState)
        ensures
            r.wf(),
            r.fields@.len() == 5,
            r.templates@.len() == 3,
            r.selected_template is None,
            r.focused_field == 0,
            !r.is_running,
    {
        AutomationState {
            fields: Self::create_default_fields(),
            templates: Self::create_default_templates(),
            selected_template: None,
            focused_field: 0,
            is_running: false,
            website_config: WebsiteConfig::default(),
        }
    }

    fn create_default_fields() -> (r: Vec<FormField>)
        ensures
            r@.len() == 5,
            r@[0].name@ == "Project Name"@,
            r@[4].name@ == "Contact Email"@,
            !r@[4].is_required,
    {
        let departments = vec![
            String::from_str("Engineering"),
            String::from_str("Marketing"),
            String::from_str("Sales"),
            String::from_str("Support"),
            String::from_str("HR"),
        ];
        let priorities = vec![
            String::from_str("High"),
            String::from_str("Medium"),
            String::from_str("Low"),
        ];
        vec![
            FormField::new("Project Name", "#project_name", FieldType::Text).with_required(true),
            FormField::new("Department", "#department", FieldType::Select).with_required(
                true,
            ).with_dropdown_options(departments),
            FormField::new("Priority Level", "#priority", FieldType::Select).with_required(
                true,
            ).with_dropdown_options(priorities),
            FormField::new("Description", "#description", FieldType::Textarea).with_required(
                true,
            ),
            FormField::new("Contact Email", "#contact_email", FieldType::Email).with_required(
                false,
            ),
        ]
    }

    fn create_default_templates() -> (r: Vec<AutomationTemplate>)
        ensures
            r@.len() == 3,
            templates_wf(r@),
    {
        let a = make_template(
            "Quick Task",
            "Standard task template",
            [
                "Daily Task",
                "Engineering",
                "Medium",
                "Standard daily task submission",
                "user@company.com",
            ],
        );
        let b = make_template(
            "Urgent Request",
            "High priority request template",
            [
                "Urgent Fix",
                "Engineering",
                "High",
                "Urgent issue that needs immediate attention",
                "user@company.com",
            ],
        );
        let c = make_template(
            "Weekly Report",
            "Weekly status report template",
            ["Weekly Status", "Engineering", "Low", "Weekly progress report and status update", ""],
        );
        vec![a, b, c]
    }

    /// Copies the selected template's values into the form.
    pub fn apply_selected_template(&mut self)
        requires
            old(self).wf(),
        ensures
            final(self).wf(),
            final(self).templates == old(self).templates,
            final(self).selected_template == old(self).selected_template,
            final(self).focused_field == old(self).focused_field,
            final(self).is_running == old(self).is_running,
            final(self).fields@.len() == old(self).fields@.len(),
            match old(self).selected_template {
                Some(t) if t < old(self).templates@.len() => forall|i: int|
                    0 <= i < old(self).fields@.len() ==> #[trigger] final(self).fields@[i]
                        == (FormField { value: final(self).fields@[i].value, ..old(self).fields@[i] })
                        && final(self).fields@[i].value@ == match old(self).templates@[t as int].value_for(
                        old(self).fields@[i].name@,
                    ) {
                        Some(v) => v,
                        None => old(self).fields@[i].value@,
                    },
                _ => final(self).fields == old(self).fields,
            },
    {
        if let Some(t) = self.selected_template {
            if t < self.templates.len() {
                self.templates[t].apply_to_fields(&mut self.fields);
            }
        }
    }

    /// The selected template, when the selection names one.
    pub fn get_selected_template(&self) -> (r: Option<&AutomationTemplate>)
        ensures
            match self.selected_template {
                Some(t) if t < self.templates@.len() => r == Some(&self.templates@[t as int]),
                _ => r is None,
            },
    {
        match self.selected_template {
            Some(t) => {
                if t < self.templates.len() {
                    Some(&self.templates[t])
                } else {
                    None
                }
            },
            None => None,
        }
    }

    /// Moves focus to the next field, wrapping around.
    pub fn focus_next_field(&mut self)
        ensures
            old(self).fields@.len() > 0 ==> final(self).focused_field as int == (
            old(self).focused_field + 1) % (old(self).fields@.len() as int),
            old(self).fields@.len() == 0 ==> final(self).focused_field == old(self).focused_field,
            final(self).fields == old(self).fields,
            final(self).templates == old(self).templates,
            final(self).selected_template == old(self).selected_template,
            final(self).is_running == old(self).is_running,
    {
        let n = self.fields.len();
        if n > 0 {
            let f = self.focused_field;
            proof {
                vstd::arithmetic::div_mod::lemma_add_mod_noop(f as int, 1, n as int);
                if n > 1 {
                    vstd::arithmetic::div_mod::lemma_small_mod(1, n as nat);
                } else {
                    assert(((f as int) % 1 + 1) % 1 == 0 && (f as int + 1) % 1 == 0)
                        by (nonlinear_arith);
                }
            }
            self.focused_field = (f % n + 1) % n;
        }
    }

    /// Moves focus to the previous field, wrapping around.
    pub fn focus_prev_field(&mut self)
        ensures
            old(self).fields@.len() > 0 && old(self).focused_field == 0 ==> final(self).focused_field
                == old(self).fields@.len() - 1,
            old(self).fields@.len() > 0 && old(self).focused_field > 0 ==> final(self).focused_field
                == old(self).focused_field - 1,
            old(self).fields@.len() == 0 ==> final(self).focused_field == old(self).focused_field,
            final(self).fields == old(self).fields,
            final(self).templates == old(self).templates,
            final(self).selected_template == old(self).selected_template,
            final(self).is_running == old(self).is_running,
    {
        if self.fields.len() > 0 {
            if self.focused_field == 0 {
                self.focused_field = self.fields.len() - 1;
            } else {
                self.focused_field = self.focused_field - 1;
            }
        }
    }

    /// The focused field, if the focus is on one.
    pub fn get_focused_field(&self) -> (r: Option<&FormField>)
        ensures
            self.focused_field < self.fields@.len() ==> r == Some(&self.fields@[self.focused_field as int]),
            self.focused_field >= self.fields@.len() ==> r is None,
    {
        if self.focused_field < self.fields.len() {
            Some(&self.fields[self.focused_field])
        } else {
            None
        }
    }

    /// Replaces the value of the focused field.
    pub fn update_focused_field_value(&mut self, value: String)
        ensures
            old(self).focused_field < old(self).fields@.len() ==> final(self).fields@ == old(self).fields@.update(
                old(self).focused_field as int,
                FormField { value, ..old(self).fields@[old(self).focused_field as int] },
            ),
            old(self).focused_field >= old(self).fields@.len() ==> final(self).fields == old(self).fields,
            final(self).focused_field == old(self).focused_field,
            final(self).templates == old(self).templates,
            final(self).selected_template == old(self).selected_template,
            final(self).is_running == old(self).is_running,
    {
        let i = self.focused_field;
        if i < self.fields.len() {
            self.fields[i].value = value;
        }
    }

    /// Whether every required field has a value.
    pub fn is_valid(&self) -> (r: bool)
        ensures
            r == all_valid(self.fields@),
    {
        let mut i: usize = 0;
        while i < self.fields.len()
            invariant
                i <= self.fields@.len(),
                forall|k: int| 0 <= k < i ==> field_valid(#[trigger] self.fields@[k]),
            decreases self.fields@.len() - i,
        {
            if !self.fields[i].is_valid() {
                return false;
            }
            i = i + 1;
        }
        true
    }

    pub fn set_running(&mut self, running: bool)
        ensures
            final(self).is_running == running,
            *final(self) == (AutomationState { is_running: running, ..*old(self) }),
    {
        self.is_running = running;
    }

    /// The messages for the required fields left empty.
    pub fn get_validation_errors(&self) -> (r: Vec<String>)
        ensures
            string_texts(r@) == validation_errors(self.fields@),
            r@.len() == 0 <==> all_valid(self.fields@),
    {
        proof {
            lemma_errors_empty(self.fields@);
        }
        collect_validation_errors(&self.fields)
    }
}

/// Keeps the list of known templates.
pub struct TemplateManager {
    templates: Vec<AutomationTemplate>,
}

impl TemplateManager {
    pub closed spec fn view_templates(&self) -> Seq<AutomationTemplate> {
        self.templates@
    }

    pub fn new() -> (r: TemplateManager)
        ensures
            r.view_templates().len() == 0,
    {
        TemplateManager { templates: Vec::new() }
    }

    /// Loads the built-in templates, replacing the current ones.
    pub fn load_templates(&mut self) -> (r: Result<(), String>)
        ensures
            r is Ok,
            final(self).view_templates().len() == 3,
            templates_wf(final(self).view_templates()),
    {
        let a = make_template(
            "Quick Task",
            "Standard task template",
            [
                "Daily Task",
                "Engineering",
                "Medium",
                "Standard daily task submission",
                "user@company.com",
            ],
        );
        let b = make_template(
            "Urgent Request",
            "High priority request template",
            [
                "Urgent Fix",
                "Engineering",
                "High",
                "Urgent issue that needs immediate attention",
                "user@company.com",
            ],
        );
        let c = make_template(
            "Weekly Report",
            "Weekly status report template",
            [
                "Weekly Status",
                "Engineering",
                "Low",
                "Weekly progress report and status update",
                "user@company.com",
            ],
        );
        self.templates = vec![a, b, c];
        Ok(())
    }

    pub fn get_templates(&self) -> (r: &[AutomationTemplate])
        ensures
            r@ == self.view_templates(),
    {
        self.templates.as_slice()
    }

    pub fn get_template(&self, index: usize) -> (r: Option<&AutomationTemplate>)
        ensures
            index < self.view_templates().len() ==> r == Some(&self.view_templates()[index as int]),
            index >= self.view_templates().len() ==> r is None,
    {
        if index < self.templates.len() {
            Some(&self.templates[index])
        } else {
            None
        }
    }

    pub fn add_template(&mut self, template: AutomationTemplate)
        ensures
            final(self).view_templates() == old(self).view_templates().push(template),
    {
        self.templates.push(template);
    }

    pub fn remove_template(&mut self, index: usize) -> (r: Option<AutomationTemplate>)
        ensures
            index < old(self).view_templates().len() ==> r == Some(old(self).view_templates()[index as int])
                && final(self).view_templates() == old(self).view_templates().remove(index as int),
            index >= old(self).view_templates().len() ==> r is None && final(self).view_templates()
                == old(self).view_templates(),
    {
        if index < self.templates.len() {
            Some(self.templates.remove(index))
        } else {
            None
        }
    }

    /// Saving to a file is not offered yet; succeeds without doing anything.
    pub fn save_templates(&self) -> (r: Result<(), String>)
        ensures
            r is Ok,
    {
        Ok(())
    }

    /// Loading from a file is not offered yet; succeeds and keeps the list.
    pub fn load_from_file(&mut self, path: &str) -> (r: Result<(), String>)
        ensures
            r is Ok,
            final(self).view_templates() == old(self).view_templates(),
    {
        Ok(())
    }
}

/// Everything a worker run needs, handed to it as its input.
#[derive(Debug, Clone)]
pub struct AutomationData {
    pub fields: Vec<FormField>,
    pub credentials: Credentials,
    pub website_config: WebsiteConfig,
}

} // verus!
