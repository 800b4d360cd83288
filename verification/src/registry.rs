//! The bridge registry: one codec per module name, constructed once before
//! any bus activity, and the dispatch of inbound field-bus frames to the
//! codec that owns the topic namespace.  Unknown or malformed topics are
//! dropped; a frame its codec rejects produces nothing.

use vstd::prelude::*;

use crate::module_msg_converter::Converter;

use crate::module_msg_converter::capsule_feeder_converter::capsule_feeder_fields;
use crate::module_msg_converter::capsule_feeder_converter::capsule_feeder_frame_ok;
use crate::module_msg_converter::capsule_feeder_converter::CapsuleFeederConverter;
use crate::module_msg_converter::capsule_feeder_converter::CapsuleFeederOutput;
use crate::module_msg_converter::coffee_feeder_converter::coffee_feeder_status_spec;
use crate::module_msg_converter::coffee_feeder_converter::CoffeeFeederConverter;
use crate::module_msg_converter::coffee_feeder_converter::CoffeeFeederOutput;
use crate::module_msg_converter::cup_holder_converter::cup_holder_status_spec;
use crate::module_msg_converter::cup_holder_converter::CupHolderConverter;
use crate::module_msg_converter::cup_holder_converter::CupHolderOutput;
use crate::module_msg_converter::light_converter::light_status_spec;
use crate::module_msg_converter::light_converter::LightConverter;
use crate::module_msg_converter::light_converter::LightOutput;
use crate::module_msg_converter::pdu_converter::pdu_status_spec;
use crate::module_msg_converter::pdu_converter::PDUConverter;
use crate::module_msg_converter::pdu_converter::PDUOutput;
use crate::module_msg_converter::tank_converter::tank_status_spec;
use crate::module_msg_converter::tank_converter::TankConverter;
use crate::module_msg_converter::tank_converter::TankOutput;

verus! {

/// A decoded status record, tagged with the module it came from: what the
/// bridge publishes on that module's typed-bus output topic.
#[derive(Clone, Debug, PartialEq, Eq)]
pub enum ModuleStatus {
    CoffeeFeeder(CoffeeFeederOutput),
    CapsuleFeeder(CapsuleFeederOutput),
    CupHolder(CupHolderOutput),
    Tank(TankOutput),
    Pdu(PDUOutput),
    Light(LightOutput),
}

/// One registered codec.
pub enum ConvertersEnum {
    CoffeeFeeder(CoffeeFeederConverter),
    CapsuleFeeder(CapsuleFeederConverter),
    CupHolder(CupHolderConverter),
    Tank(TankConverter),
    Pdu(PDUConverter),
    Light(LightConverter),
}

/// Tags a coffee feeder decode result for the bridge.
pub open spec fn wrap_coffee(o: Option<CoffeeFeederOutput>) -> Option<ModuleStatus> {
    match o {
        Some(x) => Some(ModuleStatus::CoffeeFeeder(x)),
        None => None,
    }
}

/// Tags a cup holder decode result for the bridge.
pub open spec fn wrap_cup_holder(o: Option<CupHolderOutput>) -> Option<ModuleStatus> {
    match o {
        Some(x) => Some(ModuleStatus::CupHolder(x)),
        None => None,
    }
}

/// Tags a tank decode result for the bridge.
pub open spec fn wrap_tank(o: Option<TankOutput>) -> Option<ModuleStatus> {
    match o {
        Some(x) => Some(ModuleStatus::Tank(x)),
        None => None,
    }
}

/// Tags a power distribution unit decode result for the bridge.
pub open spec fn wrap_pdu(o: Option<PDUOutput>) -> Option<ModuleStatus> {
    match o {
        Some(x) => Some(ModuleStatus::Pdu(x)),
        None => None,
    }
}

/// Tags a light decode result for the bridge.
pub open spec fn wrap_light(o: Option<LightOutput>) -> Option<ModuleStatus> {
    match o {
        Some(x) => Some(ModuleStatus::Light(x)),
        None => None,
    }
}

/// What the bridge must hand on for a capsule feeder frame: a record exactly
/// when the frame decodes, tagged as the capsule feeder's, with every field
/// as the frame's payload values dictate.
pub open spec fn capsule_result_ok(payload: Seq<char>, r: Option<ModuleStatus>) -> bool {
    &&& (r is Some <==> capsule_feeder_frame_ok(payload))
    &&& (r matches Some(s) ==> (s matches ModuleStatus::CapsuleFeeder(out)
        && capsule_feeder_fields(payload, out)))
}

impl ConvertersEnum {
    /// The registered codec carries its module's exact layouts.
    pub open spec fn wf(&self) -> bool {
        match self {
            ConvertersEnum::CoffeeFeeder(c) => c.wf(),
            ConvertersEnum::CapsuleFeeder(c) => c.wf(),
            ConvertersEnum::CupHolder(c) => c.wf(),
            ConvertersEnum::Tank(c) => c.wf(),
            ConvertersEnum::Pdu(c) => c.wf(),
            ConvertersEnum::Light(c) => c.wf(),
        }
    }

    /// The module name owning this codec's topic namespace.
    pub open spec fn name_view(&self) -> Seq<char> {
        match self {
            ConvertersEnum::CoffeeFeeder(c) => c.name@,
            ConvertersEnum::CapsuleFeeder(c) => c.name@,
            ConvertersEnum::CupHolder(c) => c.name@,
            ConvertersEnum::Tank(c) => c.name@,
            ConvertersEnum::Pdu(c) => c.name@,
            ConvertersEnum::Light(c) => c.name@,
        }
    }

    /// Handles one received field-bus publish: decode and tag the payload
    /// exactly when the topic is this codec's `get` topic.
    pub fn handle_mqtt_message(&self, topic: &str, payload: &str) -> (r: Option<ModuleStatus>)
        requires
            self.wf(),
        ensures
            topic@ != self.name_view() + "/get"@ ==> r is None,
            self matches ConvertersEnum::CoffeeFeeder(c) ==> (topic@ == c.name@ + "/get"@ ==> r
                == wrap_coffee(coffee_feeder_status_spec(payload@))),
            self matches ConvertersEnum::CapsuleFeeder(c) ==> (topic@ == c.name@ + "/get"@
                ==> capsule_result_ok(payload@, r)),
            self matches ConvertersEnum::CupHolder(c) ==> (topic@ == c.name@ + "/get"@ ==> r
                == wrap_cup_holder(cup_holder_status_spec(payload@))),
            self matches ConvertersEnum::Tank(c) ==> (topic@ == c.name@ + "/get"@ ==> r
                == wrap_tank(tank_status_spec(payload@))),
            self matches ConvertersEnum::Pdu(c) ==> (topic@ == c.name@ + "/get"@ ==> r == wrap_pdu(
                pdu_status_spec(payload@),
            )),
            self matches ConvertersEnum::Light(c) ==> (topic@ == c.name@ + "/get"@ ==> r
                == wrap_light(light_status_spec(payload@))),
    {
        match self {
            ConvertersEnum::CoffeeFeeder(c) => match c.handle_mqtt_message(topic, payload) {
                Some(o) => Some(ModuleStatus::CoffeeFeeder(o)),
                None => None,
            },
            ConvertersEnum::CapsuleFeeder(c) => match c.handle_mqtt_message(topic, payload) {
                Some(o) => Some(ModuleStatus::CapsuleFeeder(o)),
                None => None,
            },
            ConvertersEnum::CupHolder(c) => match c.handle_mqtt_message(topic, payload) {
                Some(o) => Some(ModuleStatus::CupHolder(o)),
                None => None,
            },
            ConvertersEnum::Tank(c) => match c.handle_mqtt_message(topic, payload) {
                Some(o) => Some(ModuleStatus::Tank(o)),
                None => None,
            },
            ConvertersEnum::Pdu(c) => match c.handle_mqtt_message(topic, payload) {
                Some(o) => Some(ModuleStatus::Pdu(o)),
                None => None,
            },
            ConvertersEnum::Light(c) => match c.handle_mqtt_message(topic, payload) {
                Some(o) => Some(ModuleStatus::Light(o)),
                None => None,
            },
        }
    }
}

/// The module-name topics are pairwise distinct and each splits into the
/// module name followed by `/get`.
proof fn lemma_topic_literals()
    ensures
        "coffee_feeder/get"@ == "coffee_feeder"@ + "/get"@,
        "capsule_feeder/get"@ == "capsule_feeder"@ + "/get"@,
        "cup_holder/get"@ == "cup_holder"@ + "/get"@,
        "tank/get"@ == "tank"@ + "/get"@,
        "pdu/get"@ == "pdu"@ + "/get"@,
        "light/get"@ == "light"@ + "/get"@,
        "coffee_feeder/get"@.len() == 17,
        "capsule_feeder/get"@.len() == 18,
        "cup_holder/get"@.len() == 14,
        "tank/get"@.len() == 8,
        "pdu/get"@.len() == 7,
        "light/get"@.len() == 9,
{
    reveal_strlit("coffee_feeder/get");
    reveal_strlit("coffee_feeder");
    reveal_strlit("capsule_feeder/get");
    reveal_strlit("capsule_feeder");
    reveal_strlit("cup_holder/get");
    reveal_strlit("cup_holder");
    reveal_strlit("tank/get");
    reveal_strlit("tank");
    reveal_strlit("pdu/get");
    reveal_strlit("pdu");
    reveal_strlit("light/get");
    reveal_strlit("light");
    reveal_strlit("/get");
    assert("coffee_feeder/get"@ =~= "coffee_feeder"@ + "/get"@);
    assert("capsule_feeder/get"@ =~= "capsule_feeder"@ + "/get"@);
    assert("cup_holder/get"@ =~= "cup_holder"@ + "/get"@);
    assert("tank/get"@ =~= "tank"@ + "/get"@);
    assert("pdu/get"@ =~= "pdu"@ + "/get"@);
    assert("light/get"@ =~= "light"@ + "/get"@);
}

/// The bridge's registry: every module's codec, built once at startup.
pub struct Registry {
    pub converters: Vec<ConvertersEnum>,
}

impl Registry {
    /// The registry holds exactly the six module codecs, each carrying its
    /// module's layouts.
    pub open spec fn wf(&self) -> bool {
        &&& self.converters@.len() == 6
        &&& (self.converters@[0] matches ConvertersEnum::CoffeeFeeder(c) && c.wf())
        &&& (self.converters@[1] matches ConvertersEnum::CapsuleFeeder(c) && c.wf())
        &&& (self.converters@[2] matches ConvertersEnum::CupHolder(c) && c.wf())
        &&& (self.converters@[3] matches ConvertersEnum::Tank(c) && c.wf())
        &&& (self.converters@[4] matches ConvertersEnum::Pdu(c) && c.wf())
        &&& (self.converters@[5] matches ConvertersEnum::Light(c) && c.wf())
    }

    pub fn new() -> (r: Self)
        ensures
            r.wf(),
    {
        let mut converters: Vec<ConvertersEnum> = Vec::new();
        converters.push(ConvertersEnum::CoffeeFeeder(CoffeeFeederConverter::new()));
        converters.push(ConvertersEnum::CapsuleFeeder(CapsuleFeederConverter::new()));
        converters.push(ConvertersEnum::CupHolder(CupHolderConverter::new()));
        converters.push(ConvertersEnum::Tank(TankConverter::new()));
        converters.push(ConvertersEnum::Pdu(PDUConverter::new()));
        converters.push(ConvertersEnum::Light(LightConverter::new()));
        Registry { converters }
    }

    /// Routes one received field-bus publish to the codec owning the topic
    /// namespace.  Exactly the six `{name}/get` topics reach a codec; the
    /// result is that codec's decode of the payload, tagged with its module.
    /// Every other topic, and every payload the codec rejects, yields
    /// nothing.
    pub fn dispatch(&self, topic: &str, payload: &str) -> (r: Option<ModuleStatus>)
        requires
            self.wf(),
        ensures
            topic@ == "coffee_feeder/get"@ ==> r == wrap_coffee(coffee_feeder_status_spec(payload@)),
            topic@ == "capsule_feeder/get"@ ==> capsule_result_ok(payload@, r),
            topic@ == "cup_holder/get"@ ==> r == wrap_cup_holder(cup_holder_status_spec(payload@)),
            topic@ == "tank/get"@ ==> r == wrap_tank(tank_status_spec(payload@)),
            topic@ == "pdu/get"@ ==> r == wrap_pdu(pdu_status_spec(payload@)),
            topic@ == "light/get"@ ==> r == wrap_light(light_status_spec(payload@)),
            (topic@ != "coffee_feeder/get"@ && topic@ != "capsule_feeder/get"@ && topic@
                != "cup_holder/get"@ && topic@ != "tank/get"@ && topic@ != "pdu/get"@ && topic@
                != "light/get"@) ==> r is None,
    {
        proof {
            lemma_topic_literals();
        }
        let mut i: usize = 0;
        while i < self.converters.len()
            invariant
                self.wf(),
                0 <= i <= 6,
                topic@ == "coffee_feeder/get"@ && i > 0 ==> wrap_coffee(
                    coffee_feeder_status_spec(payload@),
                ) is None,
                topic@ == "capsule_feeder/get"@ && i > 1 ==> !capsule_feeder_frame_ok(payload@),
                topic@ == "cup_holder/get"@ && i > 2 ==> wrap_cup_holder(
                    cup_holder_status_spec(payload@),
                ) is None,
                topic@ == "tank/get"@ && i > 3 ==> wrap_tank(tank_status_spec(payload@)) is None,
                topic@ == "pdu/get"@ && i > 4 ==> wrap_pdu(pdu_status_spec(payload@)) is None,
                topic@ == "light/get"@ && i > 5 ==> wrap_light(light_status_spec(payload@)) is None,
            decreases self.converters.len() - i,
        {
            proof {
                lemma_topic_literals();
            }
            let r = self.converters[i].handle_mqtt_message(topic, payload);
            if r.is_some() {
                return r;
            }
            i = i + 1;
        }
        None
    }
}

} // verus!
