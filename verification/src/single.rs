//! Controlling the one plug that a user has: a default device stands in for
//! what the command line leaves out.

use crate::plug::{PlugStatus, PlugStatusResp};
use crate::plug_call;
use crate::plug_call::PlugAsk;
use crate::plug_report;
use crate::text;
use crate::url;
use vstd::prelude::*;
use vstd::string::*;

verus! {

broadcast use vstd::seq_lib::group_seq_properties;

/// A plug and one of its ports.
#[derive(Debug)]
pub struct Device {
    pub sn: String,
    pub index: usize,
}

/// What a plug is to do.
#[derive(Debug, Clone, Copy, PartialEq, Eq, Structural)]
pub enum PlugAction {
    Status,
    On,
    Off,
}

/// The plug and the port of a command: what was given, else the default.
pub open spec fn device_for(
    sn: Option<Seq<char>>,
    index: Option<usize>,
    default: Option<(Seq<char>, usize)>,
) -> Option<(Seq<char>, usize)> {
    let port = match (index, default) {
        (Some(i), _) => i,
        (None, Some(d)) => d.1,
        (None, None) => 0,
    };
    match (sn, default) {
        (Some(s), _) => if s.len() > 0 {
            Some((s, port))
        } else {
            None
        },
        (None, Some(d)) => if d.0.len() > 0 {
            Some((d.0, port))
        } else {
            None
        },
        (None, None) => None,
    }
}

/// A default device, by its parts.
pub open spec fn default_view(default: Option<Device>) -> Option<(Seq<char>, usize)> {
    match default {
        Some(d) => Some((d.sn@, d.index)),
        None => None,
    }
}

/// The plug and the port of a command: what was given, else the default. A
/// serial number must come from somewhere; the port is 0 where nothing says
/// otherwise.
pub fn choose_device(sn: Option<String>, index: Option<usize>, default: &Option<Device>) -> (r:
    Result<Device, String>)
    ensures
        match device_for(text::opt_view(sn), index, default_view(*default)) {
            Some(d) => r matches Ok(v) && v.sn@ == d.0 && v.index == d.1,
            None => r matches Err(m) && m@
                == "no SN; pass --sn or set a default device in config"@,
        },
{
    let port: usize = match (index, default) {
        (Some(i), _) => i,
        (None, Some(d)) => d.index,
        (None, None) => 0,
    };
    let chosen = match (sn, default) {
        (Some(s), _) => Some(s),
        (None, Some(d)) => Some(d.sn.clone()),
        (None, None) => None,
    };
    if let Some(sn) = chosen {
        if !text::is_empty(&sn) {
            return Ok(Device { sn, index: port });
        }
    }
    Err("no SN; pass --sn or set a default device in config".to_owned())
}

impl PlugAction {
    /// The call of an action.
    pub open spec fn call(&self, index: usize) -> PlugAsk {
        match self {
            PlugAction::Status => PlugAsk::Status { index },
            PlugAction::On => PlugAsk::Switch { index, on: true },
            PlugAction::Off => PlugAsk::Switch { index, on: false },
        }
    }

    /// The call of an action.
    pub fn ask(&self, index: usize) -> (r: PlugAsk)
        ensures
            r == self.call(index),
    {
        match self {
            PlugAction::Status => PlugAsk::Status { index },
            PlugAction::On => PlugAsk::Switch { index, on: true },
            PlugAction::Off => PlugAsk::Switch { index, on: false },
        }
    }

    /// The line that a switched plug gets; a query gets none.
    pub open spec fn done_line(&self, device: Device) -> Option<Seq<char>> {
        match self {
            PlugAction::Status => None,
            PlugAction::On => Some(switched_line(device.sn@, device.index as int, true)),
            PlugAction::Off => Some(switched_line(device.sn@, device.index as int, false)),
        }
    }

    /// The line that a switched plug gets; a query gets none.
    pub fn done(&self, device: &Device) -> (r: Option<String>)
        ensures
            text::opt_view(r) == self.done_line(*device),
    {
        match self {
            PlugAction::Status => None,
            PlugAction::On => Some(switched_text(device, true)),
            PlugAction::Off => Some(switched_text(device, false)),
        }
    }
}

/// The line of a switched plug.
pub open spec fn switched_line(sn: Seq<char>, index: int, on: bool) -> Seq<char> {
    "sn="@ + sn + " port="@ + text::dec(index as nat) + " "@ + plug_report::state_word(on)
}

/// The line of a switched plug.
fn switched_text(device: &Device, on: bool) -> (r: String)
    ensures
        r@ == switched_line(device.sn@, device.index as int, on),
{
    let mut s = "sn=".to_owned();
    s.append(device.sn.as_str());
    s.append(" port=");
    text::push_dec(&mut s, device.index as u64);
    s.append(" ");
    s.append(plug_report::state_text(on));
    s
}

/// A port number as an unsigned one: a negative number wraps around.
pub open spec fn port_number(index: int) -> int {
    if index >= 0 {
        index
    } else {
        usize::MAX + 1 + index
    }
}

/// Whether a port is the one asked for.
fn is_port(p: &PlugStatus, index: usize) -> (r: bool)
    ensures
        r == (port_number(p.index as int) == index),
{
    if p.index >= 0 {
        p.index as usize == index
    } else {
        usize::MAX - index == (-(p.index + 1)) as usize
    }
}

/// The lines of one port: those of the ports that the plug reports under its
/// number, or that its state is not known.
pub open spec fn port_lines_of(sn: Seq<char>, index: int, ports: Option<Seq<PlugStatus>>) -> Seq<
    Seq<char>,
> {
    let found = match ports {
        Some(ports) => ports.filter(|p: PlugStatus| port_number(p.index as int) == index),
        None => seq![],
    };
    if found.len() > 0 {
        found.map_values(|p: PlugStatus| plug_report::port_line(sn, p))
    } else {
        seq![plug_report::outlet(sn, index) + " status=<<unknown>>"@]
    }
}

/// The ports that the plug reports under a number.
fn ports_at(ports: &Vec<PlugStatus>, index: usize) -> (r: Vec<PlugStatus>)
    ensures
        r@ == ports@.filter(|p: PlugStatus| port_number(p.index as int) == index),
{
    let mut found: Vec<PlugStatus> = Vec::new();
    let ghost keep = |p: PlugStatus| port_number(p.index as int) == index;
    let mut i: usize = 0;
    proof {
        reveal(Seq::filter);
        assert(ports@.take(0).filter(keep) =~= Seq::<PlugStatus>::empty());
    }
    while i < ports.len()
        invariant
            i <= ports@.len(),
            keep == (|p: PlugStatus| port_number(p.index as int) == index),
            found@ == ports@.take(i as int).filter(keep),
        decreases ports.len() - i,
    {
        proof {
            reveal(Seq::filter);
            assert(ports@.take(i + 1).drop_last() =~= ports@.take(i as int));
        }
        let p = &ports[i];
        if is_port(p, index) {
            found.push(PlugStatus { index: p.index, status: p.status, action: p.action });
        }
        i = i + 1;
    }
    proof {
        assert(ports@.take(ports@.len() as int) =~= ports@);
    }
    found
}

/// The lines of one port: those of the ports that the plug reports under its
/// number, or that its state is not known.
pub fn port_lines(device: &Device, resp: &PlugStatusResp) -> (r: Vec<String>)
    ensures
        text::lines_view(r@) == port_lines_of(
            device.sn@,
            device.index as int,
            plug_report::ports_of(*resp),
        ),
{
    let found = match &resp.response {
        Some(ports) => ports_at(ports, device.index),
        None => Vec::new(),
    };
    let response = if found.len() > 0 {
        Some(found)
    } else {
        None
    };
    let shown = PlugStatusResp {
        result: resp.result,
        response,
        message: None,
        led: resp.led,
        def_st: resp.def_st,
    };
    plug_report::status_lines(device.sn.as_str(), device.index, &shown)
}

// ---------------------------------------------------------------------- laws

/// What was given is never overruled by the default device.
pub proof fn given_device_wins(
    sn: Seq<char>,
    index: usize,
    default: Option<(Seq<char>, usize)>,
)
    requires
        sn.len() > 0,
    ensures
        device_for(Some(sn), Some(index), default) == Some((sn, index)),
{
}

/// A part that was not given comes from the default device, whatever the other
/// part is: the serial number and the port are filled in each for itself. The
/// port is 0 where nothing says otherwise, and without a serial number there
/// is no device.
pub proof fn defaults_fill_in_each_part(
    sn: Seq<char>,
    index: usize,
    own: Seq<char>,
    port: usize,
)
    requires
        sn.len() > 0,
        own.len() > 0,
    ensures
        device_for(Some(sn), None, Some((own, port))) == Some((sn, port)),
        device_for(None, Some(index), Some((own, port))) == Some((own, index)),
        device_for(None, None, Some((own, port))) == Some((own, port)),
        device_for(Some(sn), None, None) == Some((sn, 0usize)),
        device_for(None, Some(index), None) is None,
        device_for(None, None, None) is None,
{
}

/// An action sends the state that it names and says the state that it sent, of
/// the device and the port that it was for; a query switches nothing and says
/// nothing.
pub proof fn actions_say_what_they_send(device: Device)
    ensures
        ({
            let on = plug_call::params_of(device.sn@, PlugAction::On.call(device.index));
            let start = "sn="@ + device.sn@ + " port="@ + text::dec(device.index as nat);
            &&& url::carries(on, "_api"@, "set_plug_status"@)
            &&& url::carries(on, "status"@, "1"@)
            &&& url::carries(on, "index"@, text::dec(device.index as nat))
            &&& PlugAction::On.done_line(device) == Some(start + " ON"@)
        }),
        ({
            let off = plug_call::params_of(device.sn@, PlugAction::Off.call(device.index));
            let start = "sn="@ + device.sn@ + " port="@ + text::dec(device.index as nat);
            &&& url::carries(off, "_api"@, "set_plug_status"@)
            &&& url::carries(off, "status"@, "0"@)
            &&& url::carries(off, "index"@, text::dec(device.index as nat))
            &&& PlugAction::Off.done_line(device) == Some(start + " OFF"@)
        }),
        ({
            let query = plug_call::params_of(device.sn@, PlugAction::Status.call(device.index));
            &&& url::carries(query, "_api"@, "get_plug_status"@)
            &&& url::carries(query, "index"@, text::dec(device.index as nat))
            &&& PlugAction::Status.done_line(device) is None
        }),
{
    plug_call::switches_send_the_named_state(device.sn, device.index);
    plug_call::questions_go_to_the_port(device.sn, device.index);
    reveal_strlit(" ");
    reveal_strlit("ON");
    reveal_strlit("OFF");
    reveal_strlit(" ON");
    reveal_strlit(" OFF");
    assert(" ON"@ =~= " "@ + "ON"@);
    assert(" OFF"@ =~= " "@ + "OFF"@);
    let start = "sn="@ + device.sn@ + " port="@ + text::dec(device.index as nat);
    assert(switched_line(device.sn@, device.index as int, true) =~= start + " ON"@);
    assert(switched_line(device.sn@, device.index as int, false) =~= start + " OFF"@);
}

/// A port that the plug reports is shown, and only ports of the number that was
/// asked for are: every line is the line of such a port.
pub proof fn asked_ports_are_shown(
    sn: Seq<char>,
    index: usize,
    ports: Seq<PlugStatus>,
    at: int,
    line: int,
)
    requires
        0 <= at < ports.len(),
        ports[at].index == index,
        0 <= line < port_lines_of(sn, index as int, Some(ports)).len(),
    ensures
        port_lines_of(sn, index as int, Some(ports)).contains(plug_report::port_line(sn, ports[at])),
        exists|k: int|
            0 <= k < ports.len() && port_number(ports[k].index as int) == index
                && port_lines_of(sn, index as int, Some(ports))[line]
                == #[trigger] plug_report::port_line(sn, ports[k]),
{
    let keep = |p: PlugStatus| port_number(p.index as int) == index;
    let found = ports.filter(keep);
    ports.lemma_filter_contains(keep, at);
    let f = choose|f: int| 0 <= f < found.len() && found[f] == ports[at];
    let lines = port_lines_of(sn, index as int, Some(ports));
    assert(lines[f] == plug_report::port_line(sn, ports[at]));
    ports.lemma_filter_pred(keep, line);
    assert(found.contains(found[line]));
    ports.lemma_filter_contains_rev(keep, found[line]);
    let k = choose|k: int| 0 <= k < ports.len() && ports[k] == found[line];
    assert(lines[line] == plug_report::port_line(sn, ports[k]));
}

/// A port that the plug does not report has no known state.
pub proof fn unreported_ports_are_unknown(sn: Seq<char>, index: usize, ports: Seq<PlugStatus>)
    requires
        forall|k: int| 0 <= k < ports.len() ==> port_number((#[trigger] ports[k]).index as int) != index,
    ensures
        port_lines_of(sn, index as int, Some(ports)) == seq![
            "sn="@ + sn + " index="@ + text::dec(index as nat) + " status=<<unknown>>"@,
        ],
        port_lines_of(sn, index as int, None) == port_lines_of(sn, index as int, Some(ports)),
{
    let keep = |p: PlugStatus| port_number(p.index as int) == index;
    let found = ports.filter(keep);
    if found.len() > 0 {
        ports.lemma_filter_pred(keep, 0);
        assert(found.contains(found[0]));
        ports.lemma_filter_contains_rev(keep, found[0]);
        let k = choose|k: int| 0 <= k < ports.len() && ports[k] == found[0];
        assert(port_number(ports[k].index as int) == index);
    }
}

/// A port number that is not negative is itself.
pub proof fn plain_port_numbers_are_kept(index: int)
    requires
        0 <= index,
    ensures
        port_number(index) == index,
{
}

/// An empty serial number is none, wherever it comes from: one that was given
/// is not replaced by the default.
pub proof fn empty_serial_numbers_are_none(
    index: Option<usize>,
    default: Option<(Seq<char>, usize)>,
    port: usize,
)
    ensures
        device_for(Some(Seq::empty()), index, default) is None,
        device_for(None, index, Some((Seq::empty(), port))) is None,
{
}

} // verus!
