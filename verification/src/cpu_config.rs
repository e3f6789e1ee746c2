//! CPU templates. The platform has no register that a template could change
//! yet: every template is empty.

use vstd::prelude::*;
use crate::vcpu::VcpuArchError;

verus! {

/// `serde_json::Error`, the error of reading a template. None is ever made
/// here.
#[verifier::external_type_specification]
#[verifier::external_body]
pub struct ExJsonError(serde_json::Error);

/// A capability of the host that a template asks to check or not to check.
#[derive(Debug, Clone, Copy, PartialEq, Eq, Structural)]
pub enum KvmCapability {
    /// Check this capability besides the default ones.
    Add(u32),
    /// Do not check this capability.
    Remove(u32),
}

/// Enabled vCPU features of a template.
#[derive(Debug, Clone, Copy, PartialEq, Eq, Structural)]
pub struct VcpuFeatures;

impl Default for VcpuFeatures {
    fn default() -> (f: Self)
        ensures
            f == VcpuFeatures,
    {
        VcpuFeatures
    }
}

/// A change that a template makes to the value of a register.
#[derive(Debug, Clone, Copy, PartialEq, Eq, Hash, Structural)]
pub struct RegisterModifier;

/// A template that the user wrote.
#[derive(Debug, Clone, PartialEq, Eq)]
pub struct CustomCpuTemplate {
    /// Additional capabilities to check before configuring vCPUs.
    pub kvm_capabilities: Vec<KvmCapability>,
    /// Modifiers of enabled vCPU features.
    pub vcpu_features: Vec<VcpuFeatures>,
    /// Modifiers of registers.
    pub reg_modifiers: Vec<RegisterModifier>,
}

impl Default for CustomCpuTemplate {
    fn default() -> (t: Self)
        ensures
            t.is_empty(),
    {
        CustomCpuTemplate {
            kvm_capabilities: Vec::new(),
            vcpu_features: Vec::new(),
            reg_modifiers: Vec::new(),
        }
    }
}

impl CustomCpuTemplate {
    /// Whether the template asks for nothing.
    pub open spec fn is_empty(self) -> bool {
        &&& self.kvm_capabilities@.len() == 0
        &&& self.vcpu_features@.len() == 0
        &&& self.reg_modifiers@.len() == 0
    }

    /// Get a list of register IDs that are modified by the CPU template:
    /// none, as a register modifier names no register.
    pub fn reg_list(&self) -> (ids: Vec<u64>)
        ensures
            ids@.len() == 0,
    {
        Vec::new()
    }

    /// Validate the correctness of the template. Every template is correct.
    pub fn validate(&self) -> (r: Result<(), serde_json::Error>)
        ensures
            r is Ok,
    {
        Ok(())
    }
}

/// Templates available for configuring the supported CPU types.
#[derive(Debug, Clone, Copy, PartialEq, Eq, Structural)]
pub enum StaticCpuTemplate {
    /// No CPU template is used.
    NoTemplate,
}

impl Default for StaticCpuTemplate {
    fn default() -> (t: Self)
        ensures
            t == StaticCpuTemplate::NoTemplate,
    {
        StaticCpuTemplate::NoTemplate
    }
}

impl StaticCpuTemplate {
    /// Check if no template specified.
    pub fn is_none(&self) -> (b: bool)
        ensures
            b == (*self == StaticCpuTemplate::NoTemplate),
    {
        match self {
            StaticCpuTemplate::NoTemplate => true,
        }
    }

    /// The name of the template.
    pub fn name(&self) -> (s: &'static str)
        ensures
            s@ == "None"@,
    {
        match self {
            StaticCpuTemplate::NoTemplate => "None",
        }
    }
}

/// The template that a guest asks for.
#[derive(Debug, Clone, PartialEq, Eq)]
pub enum CpuTemplateType {
    /// A template that the user wrote.
    Custom(CustomCpuTemplate),
    /// One of the templates that come with the platform.
    Static(StaticCpuTemplate),
}

/// The template to apply for a guest that asks for none: the empty one.
pub fn get_cpu_template(template: &Option<CpuTemplateType>) -> (t: CustomCpuTemplate)
    requires
        template is None,
    ensures
        t.is_empty(),
{
    CustomCpuTemplate::default()
}

/// Errors thrown while configuring templates.
#[derive(Debug, PartialEq, Eq)]
pub struct CpuConfigurationError(pub VcpuArchError);

/// CPU configuration of a guest.
#[derive(Debug, Clone, Copy, PartialEq, Eq, Structural)]
pub struct CpuConfiguration;

impl Default for CpuConfiguration {
    fn default() -> (c: Self)
        ensures
            c == CpuConfiguration,
    {
        CpuConfiguration
    }
}

impl CpuConfiguration {
    /// Creates new guest CPU config based on the provided template. A
    /// template changes nothing.
    pub fn apply_template(self, template: &CustomCpuTemplate) -> (r: Result<
        Self,
        CpuConfigurationError,
    >)
        ensures
            r == Ok::<Self, CpuConfigurationError>(self),
    {
        Ok(self)
    }

    /// Returns ids of registers that are changed by this template: none.
    pub fn register_ids(&self) -> (ids: Vec<u64>)
        ensures
            ids@.len() == 0,
    {
        Vec::new()
    }
}

} // verus!
