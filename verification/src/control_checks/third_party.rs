//! The third-party constraint checker: policy records bind a vendor and
//! product id to field constraints on configuration, interface and
//! endpoint descriptors, some of which must be satisfied a required
//! number of times by the time the whole configuration tree has been
//! walked.

use vstd::prelude::*;
use crate::kvmap::KvMap;
use crate::usb;

verus! {

/// Which descriptor a constraint inspects.
#[derive(Copy, Clone, PartialEq, Eq, Structural)]
pub enum DescKind {
    Configuration,
    Interface,
    Endpoint,
}

/// The comparison a field check applies.
#[derive(Copy, Clone, PartialEq, Eq, Structural)]
pub enum FieldOp {
    Leq,
    Eq,
    Geq,
    And,
    Or,
    BitIsSet,
    BitNotSet,
}

/// A descriptor field a policy record may name.
#[derive(Copy, Clone, PartialEq, Eq, Structural)]
pub enum FieldName {
    TotalLength,
    NumInterfaces,
    ConfigurationValue,
    Configuration,
    Attributes,
    MaxPower,
    InterfaceNumber,
    AlternateSetting,
    NumEndpoints,
    InterfaceClass,
    InterfaceSubclass,
    InterfaceProtocol,
    Interface,
    EndpointAddress,
    MaxPacketSize,
    Interval,
}

/// One field check of a constraint.
#[derive(Copy, Clone)]
pub struct FieldCheck {
    pub field: FieldName,
    pub operation: FieldOp,
    pub value: u16,
}

/// One constraint of a policy record: a descriptor kind, its field
/// checks, and an optional number of times it must be satisfied.
pub struct Constraint {
    pub id: u16,
    pub desc_type: DescKind,
    pub field_checks: Vec<FieldCheck>,
    pub count: Option<u16>,
}

/// A vendor and product id a policy record applies to.
#[derive(Copy, Clone)]
pub struct PatchId {
    pub vendor_id: u16,
    pub product_id: u16,
}

/// One policy record: the devices it binds and its constraints.
pub struct CompliancePatch {
    pub ids: Vec<PatchId>,
    pub constraints: Vec<Constraint>,
}

/// What one field check means. A bit index at or past 16 can never name
/// a bit of a 16-bit field, so such a check fails.
pub open spec fn field_op_eval(op: FieldOp, value: u16, cv: u16) -> bool {
    match op {
        FieldOp::Leq => value <= cv,
        FieldOp::Eq => value == cv,
        FieldOp::Geq => value >= cv,
        FieldOp::And => value & cv == cv,
        FieldOp::Or => value | cv == cv,
        FieldOp::BitIsSet => cv < 16 && value & (1u16 << cv) != 0,
        FieldOp::BitNotSet => cv < 16 && value & (1u16 << cv) == 0,
    }
}

/// Evaluate one field check against a field value.
pub fn eval_field_op(op: FieldOp, value: u16, cv: u16) -> (r: bool)
    ensures
        r == field_op_eval(op, value, cv),
{
    match op {
        FieldOp::Leq => value <= cv,
        FieldOp::Eq => value == cv,
        FieldOp::Geq => value >= cv,
        FieldOp::And => value & cv == cv,
        FieldOp::Or => value | cv == cv,
        FieldOp::BitIsSet => cv < 16 && value & (1u16 << cv) != 0,
        FieldOp::BitNotSet => cv < 16 && value & (1u16 << cv) == 0,
    }
}

/// The value a field name selects from a configuration descriptor, if it
/// names one of its fields.
pub open spec fn config_field_spec(f: FieldName, c: usb::ConfigDescriptor) -> Option<u16> {
    match f {
        FieldName::TotalLength => Some(c.total_length),
        FieldName::NumInterfaces => Some(c.num_interfaces as u16),
        FieldName::ConfigurationValue => Some(c.configuration_value as u16),
        FieldName::Configuration => Some(c.configuration as u16),
        FieldName::Attributes => Some(c.attributes as u16),
        FieldName::MaxPower => Some(c.max_power as u16),
        _ => None,
    }
}

/// The value a field name selects from an interface descriptor.
pub open spec fn iface_field_spec(f: FieldName, i: usb::InterfaceDescriptor) -> Option<u16> {
    match f {
        FieldName::InterfaceNumber => Some(i.interface_number as u16),
        FieldName::AlternateSetting => Some(i.alternate_setting as u16),
        FieldName::NumEndpoints => Some(i.num_endpoints as u16),
        FieldName::InterfaceClass => Some(i.interface_class as u16),
        FieldName::InterfaceSubclass => Some(i.interface_subclass as u16),
        FieldName::InterfaceProtocol => Some(i.interface_protocol as u16),
        FieldName::Interface => Some(i.interface as u16),
        _ => None,
    }
}

/// The value a field name selects from an endpoint descriptor.
pub open spec fn ep_field_spec(f: FieldName, e: usb::EndpointDescriptor) -> Option<u16> {
    match f {
        FieldName::EndpointAddress => Some(e.endpoint_address as u16),
        FieldName::Attributes => Some(e.attributes as u16),
        FieldName::MaxPacketSize => Some(e.max_packet_size),
        FieldName::Interval => Some(e.interval as u16),
        _ => None,
    }
}

/// Whether every field check of a constraint passes on a configuration
/// descriptor. A field that is not a configuration field fails.
pub open spec fn config_checks_pass(fcs: Seq<FieldCheck>, c: usb::ConfigDescriptor) -> bool {
    forall|i: int|
        0 <= i < fcs.len() ==> match config_field_spec((#[trigger] fcs[i]).field, c) {
            Some(v) => field_op_eval(fcs[i].operation, v, fcs[i].value),
            None => false,
        }
}

/// Whether every field check of a constraint passes on an interface
/// descriptor.
pub open spec fn iface_checks_pass(fcs: Seq<FieldCheck>, d: usb::InterfaceDescriptor) -> bool {
    forall|i: int|
        0 <= i < fcs.len() ==> match iface_field_spec((#[trigger] fcs[i]).field, d) {
            Some(v) => field_op_eval(fcs[i].operation, v, fcs[i].value),
            None => false,
        }
}

/// Whether every field check of a constraint passes on an endpoint
/// descriptor.
pub open spec fn ep_checks_pass(fcs: Seq<FieldCheck>, e: usb::EndpointDescriptor) -> bool {
    forall|i: int|
        0 <= i < fcs.len() ==> match ep_field_spec((#[trigger] fcs[i]).field, e) {
            Some(v) => field_op_eval(fcs[i].operation, v, fcs[i].value),
            None => false,
        }
}

/// The satisfied-count key of a constraint for a device.
pub open spec fn sat_key_spec(vendor: u16, product: u16, id: u16) -> u64 {
    ((vendor as u64) * 0x1_0000_0000 + (product as u64) * 0x1_0000 + (id as u64)) as u64
}

/// The satisfied-count key of a constraint for a device.
pub fn sat_key(vendor: u16, product: u16, id: u16) -> (r: u64)
    ensures
        r == sat_key_spec(vendor, product, id),
{
    (vendor as u64) * 0x1_0000_0000 + (product as u64) * 0x1_0000 + (id as u64)
}

/// The policy record applying to a device: the last record that lists
/// its vendor and product id, or -1 when none does.
pub open spec fn find_patch_idx(ps: Seq<CompliancePatch>, vendor: u16, product: u16) -> int
    decreases ps.len(),
{
    if ps.len() == 0 {
        -1
    } else if exists|j: int|
        0 <= j < ps.last().ids@.len() && (#[trigger] ps.last().ids@[j]).vendor_id == vendor
            && ps.last().ids@[j].product_id == product {
        ps.len() - 1
    } else {
        find_patch_idx(ps.drop_last(), vendor, product)
    }
}

/// One pass of the constraints of kind `kind` over a descriptor whose
/// per-constraint results are `res`: mandatory constraints must pass,
/// and each counted constraint that passes brings its remaining count
/// closer to zero. Returns whether the pass succeeded and the satisfied
/// counts after it.
pub open spec fn fold_constraints(
    sat: Map<u64, u16>,
    cons: Seq<Constraint>,
    i: int,
    vendor: u16,
    product: u16,
    kind: DescKind,
    res: Seq<bool>,
) -> (bool, Map<u64, u16>)
    decreases cons.len() - i when 0 <= i <= cons.len()
{
    if i >= cons.len() {
        (true, sat)
    } else {
        let con = cons[i];
        if con.desc_type != kind {
            fold_constraints(sat, cons, i + 1, vendor, product, kind, res)
        } else {
            match con.count {
                None => if !res[i] {
                    (false, sat)
                } else {
                    fold_constraints(sat, cons, i + 1, vendor, product, kind, res)
                },
                Some(c) => {
                    let key = sat_key_spec(vendor, product, con.id);
                    let cur = if sat.contains_key(key) {
                        sat[key]
                    } else {
                        c
                    };
                    let newv = if res[i] && cur > 0 {
                        (cur - 1) as u16
                    } else {
                        cur
                    };
                    fold_constraints(sat.insert(key, newv), cons, i + 1, vendor, product, kind, res)
                },
            }
        }
    }
}

/// All counted constraints have reached their required number of
/// matches.
pub open spec fn all_counts_zero(sat: Map<u64, u16>) -> bool {
    forall|k: u64| sat.contains_key(k) ==> #[trigger] sat[k] == 0
}

/// The verdict of [`Patcher::check_config_fields`] on one configuration
/// descriptor: every configuration-kind constraint of the device's
/// policy record must pass.
pub open spec fn config_check_accepts(
    patches: Seq<CompliancePatch>,
    config: usb::ConfigDescriptor,
    dev: usb::DeviceDescriptor,
) -> bool {
    let pi = find_patch_idx(patches, dev.id_vendor, dev.id_product);
    if pi == -1 {
        true
    } else {
        forall|i: int|
            0 <= i < patches[pi].constraints@.len() && (#[trigger] patches[pi].constraints@[i]).desc_type == DescKind::Configuration ==> config_checks_pass(
                patches[pi].constraints@[i].field_checks@,
                config,
            )
    }
}

/// The verdict of [`Patcher::check_iface_fields`] on one interface
/// descriptor, as a function of the checker's state.
pub open spec fn iface_check_accepts(
    patches: Seq<CompliancePatch>,
    sat: Map<u64, u16>,
    num_ifs: u8,
    num_eps: u8,
    iface: usb::InterfaceDescriptor,
    dev: usb::DeviceDescriptor,
) -> bool {
    let pi = find_patch_idx(patches, dev.id_vendor, dev.id_product);
    if pi == -1 {
        true
    } else {
        let cons = patches[pi].constraints@;
        let res = Seq::new(cons.len(), |i: int| iface_checks_pass(cons[i].field_checks@, iface));
        let fr = fold_constraints(
            sat,
            cons,
            0,
            dev.id_vendor,
            dev.id_product,
            DescKind::Interface,
            res,
        );
        if !fr.0 {
            false
        } else {
            let nif = if num_ifs > 0 {
                (num_ifs - 1) as u8
            } else {
                num_ifs
            };
            let neps = if num_ifs > 0 {
                iface.num_endpoints
            } else {
                num_eps
            };
            if nif == 0 && neps == 0 {
                all_counts_zero(fr.1)
            } else {
                true
            }
        }
    }
}

/// The checker's state after [`Patcher::check_iface_fields`] on one
/// interface descriptor: the satisfied counts and both counters.
pub open spec fn iface_check_state(
    patches: Seq<CompliancePatch>,
    sat: Map<u64, u16>,
    num_ifs: u8,
    num_eps: u8,
    iface: usb::InterfaceDescriptor,
    dev: usb::DeviceDescriptor,
) -> (Map<u64, u16>, u8, u8) {
    let pi = find_patch_idx(patches, dev.id_vendor, dev.id_product);
    if pi == -1 {
        (sat, num_ifs, num_eps)
    } else {
        let cons = patches[pi].constraints@;
        let res = Seq::new(cons.len(), |i: int| iface_checks_pass(cons[i].field_checks@, iface));
        let fr = fold_constraints(
            sat,
            cons,
            0,
            dev.id_vendor,
            dev.id_product,
            DescKind::Interface,
            res,
        );
        if !fr.0 {
            (fr.1, num_ifs, num_eps)
        } else if num_ifs > 0 {
            (fr.1, (num_ifs - 1) as u8, iface.num_endpoints)
        } else {
            (fr.1, num_ifs, num_eps)
        }
    }
}

/// The verdict of [`Patcher::check_endpoint_fields`] on one endpoint
/// descriptor, as a function of the checker's state.
pub open spec fn ep_check_accepts(
    patches: Seq<CompliancePatch>,
    sat: Map<u64, u16>,
    num_ifs: u8,
    num_eps: u8,
    ep: usb::EndpointDescriptor,
    dev: usb::DeviceDescriptor,
) -> bool {
    let pi = find_patch_idx(patches, dev.id_vendor, dev.id_product);
    if pi == -1 {
        true
    } else {
        let cons = patches[pi].constraints@;
        let res = Seq::new(cons.len(), |i: int| ep_checks_pass(cons[i].field_checks@, ep));
        let fr = fold_constraints(
            sat,
            cons,
            0,
            dev.id_vendor,
            dev.id_product,
            DescKind::Endpoint,
            res,
        );
        if !fr.0 {
            false
        } else {
            let neps = if num_eps > 0 {
                (num_eps - 1) as u8
            } else {
                num_eps
            };
            if num_ifs == 0 && neps == 0 {
                all_counts_zero(fr.1)
            } else {
                true
            }
        }
    }
}

/// The checker's state after [`Patcher::check_endpoint_fields`] on one
/// endpoint descriptor: the satisfied counts and the endpoint counter.
pub open spec fn ep_check_state(
    patches: Seq<CompliancePatch>,
    sat: Map<u64, u16>,
    num_eps: u8,
    ep: usb::EndpointDescriptor,
    dev: usb::DeviceDescriptor,
) -> (Map<u64, u16>, u8) {
    let pi = find_patch_idx(patches, dev.id_vendor, dev.id_product);
    if pi == -1 {
        (sat, num_eps)
    } else {
        let cons = patches[pi].constraints@;
        let res = Seq::new(cons.len(), |i: int| ep_checks_pass(cons[i].field_checks@, ep));
        let fr = fold_constraints(
            sat,
            cons,
            0,
            dev.id_vendor,
            dev.id_product,
            DescKind::Endpoint,
            res,
        );
        if !fr.0 {
            (fr.1, num_eps)
        } else if num_eps > 0 {
            (fr.1, (num_eps - 1) as u8)
        } else {
            (fr.1, num_eps)
        }
    }
}

/// The third-party constraint state for one connection: the loaded
/// policy records, the remaining match counts, and how much of the
/// current configuration tree is still to come.
pub struct Patcher {
    pub patches: Vec<CompliancePatch>,
    pub satisfied: KvMap<u16>,
    pub num_ifs: u8,
    pub num_eps: u8,
}

impl Patcher {
    /// The satisfied-count map always has distinct keys.
    pub open spec fn wf(&self) -> bool {
        self.satisfied.inv()
    }

    /// A checker over the given policy records, with no matches counted
    /// yet. The records come from the startup policy directory, already
    /// decoded into plain values.
    pub fn new(patches: Vec<CompliancePatch>) -> (r: Patcher)
        ensures
            r.wf(),
            r.patches == patches,
            r.satisfied@ == Map::<u64, u16>::empty(),
            r.num_ifs == 0,
            r.num_eps == 0,
    {
        Patcher { patches, satisfied: KvMap::new(), num_ifs: 0, num_eps: 0 }
    }

    /// Find the policy record for a device, as an index into `patches`.
    #[verifier::loop_isolation(false)]
    fn find_patch(&self, vendor: u16, product: u16) -> (r: Option<usize>)
        ensures
            match r {
                Some(i) => i < self.patches@.len() && i == find_patch_idx(
                    self.patches@,
                    vendor,
                    product,
                ),
                None => find_patch_idx(self.patches@, vendor, product) == -1,
            },
    {
        let n = self.patches.len();
        proof {
            assert(self.patches@.take(n as int) =~= self.patches@);
        }
        let mut i: usize = n;
        while i > 0
            invariant
                i <= n,
                n == self.patches@.len(),
                find_patch_idx(self.patches@, vendor, product) == find_patch_idx(
                    self.patches@.take(i as int),
                    vendor,
                    product,
                ),
            decreases i,
        {
            i = i - 1;
            let m = self.patches[i].ids.len();
            let mut j: usize = 0;
            let mut found = false;
            while j < m
                invariant
                    j <= m,
                    i < n,
                    n == self.patches@.len(),
                    m == self.patches@[i as int].ids@.len(),
                    found == exists|t: int|
                        0 <= t < j && (#[trigger] self.patches@[i as int].ids@[t]).vendor_id
                            == vendor && self.patches@[i as int].ids@[t].product_id == product,
                decreases m - j,
            {
                let pid = self.patches[i].ids[j];
                if pid.vendor_id == vendor && pid.product_id == product {
                    found = true;
                }
                j = j + 1;
            }
            proof {
                assert(self.patches@.take(i as int + 1).drop_last() =~= self.patches@.take(
                    i as int,
                ));
                assert(self.patches@.take(i as int + 1).last() == self.patches@[i as int]);
            }
            if found {
                return Some(i);
            }
        }
        proof {
            assert(self.patches@.take(0) =~= Seq::<CompliancePatch>::empty());
        }
        None
    }

    /// Check that every remaining satisfied count is zero.
    #[verifier::loop_isolation(false)]
    fn counts_all_zero(&self) -> (r: bool)
        requires
            self.wf(),
        ensures
            r == all_counts_zero(self.satisfied@),
    {
        let n = self.satisfied.len();
        let mut i: usize = 0;
        while i < n
            invariant
                self.wf(),
                i <= n,
                n == self.satisfied.keys().len(),
                forall|j: int|
                    0 <= j < i ==> self.satisfied@[#[trigger] self.satisfied.keys()[j]] == 0,
            decreases n - i,
        {
            if *self.satisfied.val_at(i) != 0 {
                proof {
                    assert(!all_counts_zero(self.satisfied@));
                }
                return false;
            }
            i = i + 1;
        }
        proof {
            self.satisfied.lemma_keys();
            assert forall|k: u64| self.satisfied@.contains_key(k) implies #[trigger] self.satisfied@[k]
                == 0 by {
                let j = choose|j: int|
                    0 <= j < self.satisfied.keys().len() && (#[trigger] self.satisfied.keys()[j])
                        == k;
                assert(self.satisfied@[self.satisfied.keys()[j]] == 0);
            }
        }
        true
    }

    /// Run the configuration-descriptor constraints of the device's
    /// policy record, if it has one, and remember how many interfaces the
    /// configuration promises. Configuration constraints are always
    /// mandatory.
    #[verifier::loop_isolation(false)]
    pub fn check_config_fields(&mut self, config: &usb::ConfigDescriptor, dev: &usb::DeviceDescriptor) -> (r: bool)
        requires
            old(self).wf(),
        ensures
            final(self).wf(),
            final(self).patches == old(self).patches,
            final(self).satisfied@ == old(self).satisfied@,
            final(self).num_eps == old(self).num_eps,
            ({
                let pi = find_patch_idx(old(self).patches@, dev.id_vendor, dev.id_product);
                if pi == -1 {
                    r == true && final(self).num_ifs == old(self).num_ifs
                } else {
                    let cons = old(self).patches@[pi].constraints@;
                    &&& r == (forall|i: int|
                        0 <= i < cons.len() && (#[trigger] cons[i]).desc_type
                            == DescKind::Configuration ==> config_checks_pass(
                            cons[i].field_checks@,
                            *config,
                        ))
                    &&& (if r {
                        final(self).num_ifs == config.num_interfaces
                    } else {
                        final(self).num_ifs == old(self).num_ifs
                    })
                }
            }),
    {
        let pi = match self.find_patch(dev.id_vendor, dev.id_product) {
            Some(i) => i,
            None => {
                return true;
            },
        };
        let ghost cons_g = self.patches@[pi as int].constraints@;
        let ncons = self.patches[pi].constraints.len();
        let mut ci: usize = 0;
        while ci < ncons
            invariant
                self == old(self),
                pi < self.patches@.len(),
                ci <= ncons,
                cons_g == self.patches@[pi as int].constraints@,
                ncons == cons_g.len(),
                forall|i: int|
                    0 <= i < ci && (#[trigger] cons_g[i]).desc_type == DescKind::Configuration
                        ==> config_checks_pass(cons_g[i].field_checks@, *config),
            decreases ncons - ci,
        {
            let is_config = matches!(
                self.patches[pi].constraints[ci].desc_type,
                DescKind::Configuration
            );
            if is_config {
                let nfc = self.patches[pi].constraints[ci].field_checks.len();
                let mut fi: usize = 0;
                while fi < nfc
                    invariant
                        self == old(self),
                        pi < self.patches@.len(),
                        ci < ncons,
                        cons_g == self.patches@[pi as int].constraints@,
                        ncons == cons_g.len(),
                        fi <= nfc,
                        nfc == cons_g[ci as int].field_checks@.len(),
                        forall|i: int|
                            0 <= i < fi ==> match config_field_spec(
                                (#[trigger] cons_g[ci as int].field_checks@[i]).field,
                                *config,
                            ) {
                                Some(v) => field_op_eval(
                                    cons_g[ci as int].field_checks@[i].operation,
                                    v,
                                    cons_g[ci as int].field_checks@[i].value,
                                ),
                                None => false,
                            },
                    decreases nfc - fi,
                {
                    let fc = self.patches[pi].constraints[ci].field_checks[fi];
                    let looked: Option<u16> = match fc.field {
                        FieldName::TotalLength => Some(config.total_length),
                        FieldName::NumInterfaces => Some(config.num_interfaces as u16),
                        FieldName::ConfigurationValue => Some(config.configuration_value as u16),
                        FieldName::Configuration => Some(config.configuration as u16),
                        FieldName::Attributes => Some(config.attributes as u16),
                        FieldName::MaxPower => Some(config.max_power as u16),
                        _ => None,
                    };
                    let value = match looked {
                        Some(v) => v,
                        None => {
                            proof {
                                assert(!config_checks_pass(
                                    cons_g[ci as int].field_checks@,
                                    *config,
                                ));
                            }
                            return false;
                        },
                    };
                    if !eval_field_op(fc.operation, value, fc.value) {
                        proof {
                            assert(!config_checks_pass(cons_g[ci as int].field_checks@, *config));
                        }
                        return false;
                    }
                    fi = fi + 1;
                }
            }
            ci = ci + 1;
        }
        let nif = config.num_interfaces;
        self.num_ifs = nif;
        true
    }

    /// Run the interface-descriptor constraints of the device's policy
    /// record over one interface descriptor, counting satisfied matches,
    /// and verify the counts once the whole configuration tree has been
    /// walked; see [`fold_constraints`].
    #[verifier::loop_isolation(false)]
    pub fn check_iface_fields(&mut self, iface: &usb::InterfaceDescriptor, dev: &usb::DeviceDescriptor) -> (r: bool)
        requires
            old(self).wf(),
        ensures
            final(self).wf(),
            final(self).patches == old(self).patches,
            ({
                let pi = find_patch_idx(old(self).patches@, dev.id_vendor, dev.id_product);
                if pi == -1 {
                    &&& r == true
                    &&& final(self).satisfied@ == old(self).satisfied@
                    &&& final(self).num_ifs == old(self).num_ifs
                    &&& final(self).num_eps == old(self).num_eps
                } else {
                    let cons = old(self).patches@[pi].constraints@;
                    let res = Seq::new(
                        cons.len(),
                        |i: int| iface_checks_pass(cons[i].field_checks@, *iface),
                    );
                    let fr = fold_constraints(
                        old(self).satisfied@,
                        cons,
                        0,
                        dev.id_vendor,
                        dev.id_product,
                        DescKind::Interface,
                        res,
                    );
                    &&& final(self).satisfied@ == fr.1
                    &&& (if !fr.0 {
                        &&& r == false
                        &&& final(self).num_ifs == old(self).num_ifs
                        &&& final(self).num_eps == old(self).num_eps
                    } else {
                        let nif = if old(self).num_ifs > 0 {
                            (old(self).num_ifs - 1) as u8
                        } else {
                            old(self).num_ifs
                        };
                        let neps = if old(self).num_ifs > 0 {
                            iface.num_endpoints
                        } else {
                            old(self).num_eps
                        };
                        &&& final(self).num_ifs == nif
                        &&& final(self).num_eps == neps
                        &&& r == (if nif == 0 && neps == 0 {
                            all_counts_zero(fr.1)
                        } else {
                            true
                        })
                    })
                }
            }),
    {
        let pi = match self.find_patch(dev.id_vendor, dev.id_product) {
            Some(i) => i,
            None => {
                return true;
            },
        };
        let ghost cons_g = self.patches@[pi as int].constraints@;
        let ghost res_g = Seq::new(
            cons_g.len(),
            |i: int| iface_checks_pass(cons_g[i].field_checks@, *iface),
        );
        let vendor = dev.id_vendor;
        let product = dev.id_product;
        let ncons = self.patches[pi].constraints.len();
        let mut ci: usize = 0;
        while ci < ncons
            invariant
                self.wf(),
                self.patches == old(self).patches,
                self.num_ifs == old(self).num_ifs,
                self.num_eps == old(self).num_eps,
                pi < self.patches@.len(),
                ci <= ncons,
                cons_g == self.patches@[pi as int].constraints@,
                res_g == Seq::new(
                    cons_g.len(),
                    |i: int| iface_checks_pass(cons_g[i].field_checks@, *iface),
                ),
                ncons == cons_g.len(),
                vendor == dev.id_vendor,
                product == dev.id_product,
                fold_constraints(
                    old(self).satisfied@,
                    cons_g,
                    0,
                    vendor,
                    product,
                    DescKind::Interface,
                    res_g,
                ) == fold_constraints(
                    self.satisfied@,
                    cons_g,
                    ci as int,
                    vendor,
                    product,
                    DescKind::Interface,
                    res_g,
                ),
            decreases ncons - ci,
        {
            let is_kind = matches!(self.patches[pi].constraints[ci].desc_type, DescKind::Interface);
            if is_kind {
                let nfc = self.patches[pi].constraints[ci].field_checks.len();
                let mut fi: usize = 0;
                let mut rloc = true;
                while fi < nfc
                    invariant
                        self.patches == old(self).patches,
                        pi < self.patches@.len(),
                        ci < ncons,
                        cons_g == self.patches@[pi as int].constraints@,
                        ncons == cons_g.len(),
                        fi <= nfc,
                        nfc == cons_g[ci as int].field_checks@.len(),
                        rloc == (forall|i: int|
                            0 <= i < fi ==> match iface_field_spec(
                                (#[trigger] cons_g[ci as int].field_checks@[i]).field,
                                *iface,
                            ) {
                                Some(v) => field_op_eval(
                                    cons_g[ci as int].field_checks@[i].operation,
                                    v,
                                    cons_g[ci as int].field_checks@[i].value,
                                ),
                                None => false,
                            }),
                    decreases nfc - fi,
                {
                    let fc = self.patches[pi].constraints[ci].field_checks[fi];
                    let looked: Option<u16> = match fc.field {
                        FieldName::InterfaceNumber => Some(iface.interface_number as u16),
                        FieldName::AlternateSetting => Some(iface.alternate_setting as u16),
                        FieldName::NumEndpoints => Some(iface.num_endpoints as u16),
                        FieldName::InterfaceClass => Some(iface.interface_class as u16),
                        FieldName::InterfaceSubclass => Some(iface.interface_subclass as u16),
                        FieldName::InterfaceProtocol => Some(iface.interface_protocol as u16),
                        FieldName::Interface => Some(iface.interface as u16),
                        _ => None,
                    };
                    let passed = match looked {
                        Some(v) => eval_field_op(fc.operation, v, fc.value),
                        None => false,
                    };
                    rloc = rloc && passed;
                    fi = fi + 1;
                }
                proof {
                    assert(rloc == res_g[ci as int]);
                }
                let has_count = self.patches[pi].constraints[ci].count.is_some();
                if !has_count {
                    if !rloc {
                        return false;
                    }
                } else {
                    let c = match self.patches[pi].constraints[ci].count {
                        Some(c) => c,
                        None => 0,
                    };
                    let key = sat_key(vendor, product, self.patches[pi].constraints[ci].id);
                    let cur = match self.satisfied.get(key) {
                        Some(v) => *v,
                        None => c,
                    };
                    let newv = if rloc && cur > 0 {
                        cur - 1
                    } else {
                        cur
                    };
                    self.satisfied.set(key, newv);
                }
            }
            ci = ci + 1;
        }
        if self.num_ifs > 0 {
            self.num_ifs = self.num_ifs - 1;
            self.num_eps = iface.num_endpoints;
        }
        if self.num_ifs == 0 && self.num_eps == 0 {
            // The whole configuration tree has been walked: every counted
            // constraint must have been satisfied often enough.
            if !self.counts_all_zero() {
                return false;
            }
        }
        true
    }

    /// Run the endpoint-descriptor constraints of the device's policy
    /// record over one endpoint descriptor, counting satisfied matches,
    /// and verify the counts once the whole configuration tree has been
    /// walked; see [`fold_constraints`].
    #[verifier::loop_isolation(false)]
    pub fn check_endpoint_fields(&mut self, ep: &usb::EndpointDescriptor, dev: &usb::DeviceDescriptor) -> (r: bool)
        requires
            old(self).wf(),
        ensures
            final(self).wf(),
            final(self).patches == old(self).patches,
            final(self).num_ifs == old(self).num_ifs,
            ({
                let pi = find_patch_idx(old(self).patches@, dev.id_vendor, dev.id_product);
                if pi == -1 {
                    &&& r == true
                    &&& final(self).satisfied@ == old(self).satisfied@
                    &&& final(self).num_eps == old(self).num_eps
                } else {
                    let cons = old(self).patches@[pi].constraints@;
                    let res = Seq::new(
                        cons.len(),
                        |i: int| ep_checks_pass(cons[i].field_checks@, *ep),
                    );
                    let fr = fold_constraints(
                        old(self).satisfied@,
                        cons,
                        0,
                        dev.id_vendor,
                        dev.id_product,
                        DescKind::Endpoint,
                        res,
                    );
                    &&& final(self).satisfied@ == fr.1
                    &&& (if !fr.0 {
                        &&& r == false
                        &&& final(self).num_eps == old(self).num_eps
                    } else {
                        let neps = if old(self).num_eps > 0 {
                            (old(self).num_eps - 1) as u8
                        } else {
                            old(self).num_eps
                        };
                        &&& final(self).num_eps == neps
                        &&& r == (if old(self).num_ifs == 0 && neps == 0 {
                            all_counts_zero(fr.1)
                        } else {
                            true
                        })
                    })
                }
            }),
    {
        let pi = match self.find_patch(dev.id_vendor, dev.id_product) {
            Some(i) => i,
            None => {
                return true;
            },
        };
        let ghost cons_g = self.patches@[pi as int].constraints@;
        let ghost res_g = Seq::new(
            cons_g.len(),
            |i: int| ep_checks_pass(cons_g[i].field_checks@, *ep),
        );
        let vendor = dev.id_vendor;
        let product = dev.id_product;
        let ncons = self.patches[pi].constraints.len();
        let mut ci: usize = 0;
        while ci < ncons
            invariant
                self.wf(),
                self.patches == old(self).patches,
                self.num_ifs == old(self).num_ifs,
                self.num_eps == old(self).num_eps,
                pi < self.patches@.len(),
                ci <= ncons,
                cons_g == self.patches@[pi as int].constraints@,
                res_g == Seq::new(
                    cons_g.len(),
                    |i: int| ep_checks_pass(cons_g[i].field_checks@, *ep),
                ),
                ncons == cons_g.len(),
                vendor == dev.id_vendor,
                product == dev.id_product,
                fold_constraints(
                    old(self).satisfied@,
                    cons_g,
                    0,
                    vendor,
                    product,
                    DescKind::Endpoint,
                    res_g,
                ) == fold_constraints(
                    self.satisfied@,
                    cons_g,
                    ci as int,
                    vendor,
                    product,
                    DescKind::Endpoint,
                    res_g,
                ),
            decreases ncons - ci,
        {
            let is_kind = matches!(self.patches[pi].constraints[ci].desc_type, DescKind::Endpoint);
            if is_kind {
                let nfc = self.patches[pi].constraints[ci].field_checks.len();
                let mut fi: usize = 0;
                let mut rloc = true;
                while fi < nfc
                    invariant
                        self.patches == old(self).patches,
                        pi < self.patches@.len(),
                        ci < ncons,
                        cons_g == self.patches@[pi as int].constraints@,
                        ncons == cons_g.len(),
                        fi <= nfc,
                        nfc == cons_g[ci as int].field_checks@.len(),
                        rloc == (forall|i: int|
                            0 <= i < fi ==> match ep_field_spec(
                                (#[trigger] cons_g[ci as int].field_checks@[i]).field,
                                *ep,
                            ) {
                                Some(v) => field_op_eval(
                                    cons_g[ci as int].field_checks@[i].operation,
                                    v,
                                    cons_g[ci as int].field_checks@[i].value,
                                ),
                                None => false,
                            }),
                    decreases nfc - fi,
                {
                    let fc = self.patches[pi].constraints[ci].field_checks[fi];
                    let looked: Option<u16> = match fc.field {
                        FieldName::EndpointAddress => Some(ep.endpoint_address as u16),
                        FieldName::Attributes => Some(ep.attributes as u16),
                        FieldName::MaxPacketSize => Some(ep.max_packet_size),
                        FieldName::Interval => Some(ep.interval as u16),
                        _ => None,
                    };
                    let passed = match looked {
                        Some(v) => eval_field_op(fc.operation, v, fc.value),
                        None => false,
                    };
                    rloc = rloc && passed;
                    fi = fi + 1;
                }
                proof {
                    assert(rloc == res_g[ci as int]);
                }
                let has_count = self.patches[pi].constraints[ci].count.is_some();
                if !has_count {
                    if !rloc {
                        return false;
                    }
                } else {
                    let c = match self.patches[pi].constraints[ci].count {
                        Some(c) => c,
                        None => 0,
                    };
                    let key = sat_key(vendor, product, self.patches[pi].constraints[ci].id);
                    let cur = match self.satisfied.get(key) {
                        Some(v) => *v,
                        None => c,
                    };
                    let newv = if rloc && cur > 0 {
                        cur - 1
                    } else {
                        cur
                    };
                    self.satisfied.set(key, newv);
                }
            }
            ci = ci + 1;
        }
        if self.num_eps > 0 {
            self.num_eps = self.num_eps - 1;
        }
        if self.num_ifs == 0 && self.num_eps == 0 {
            // The whole configuration tree has been walked: every counted
            // constraint must have been satisfied often enough.
            if !self.counts_all_zero() {
                return false;
            }
        }
        true
    }
}

} // verus!
