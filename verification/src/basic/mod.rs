//! The controller and its nodes: the top layer.
//!
//! A [`Controller`] owns a driver and knows the nodes of the network. A
//! [`Node`] is what is known of one node; each of its operations sends one
//! command through the driver and, where the command asks for something, reads
//! the report that answers it.

use crate::cmds::basic::Basic;
use crate::cmds::info::{node_info_of, NodeInfo};
use crate::cmds::meter::{are_readings_of, is_reading_of, Meter};
use crate::cmds::powerlevel::{
    split_bytes, PowerLevel, PowerLevelOperationStatus, PowerLevelStatus,
};
use crate::cmds::switch_binary::{switch_byte, SwitchBinary};
use crate::cmds::{command, message_bytes};
use crate::defs::{CommandClass, GenericType, MeterData};
use crate::driver::Driver;
use crate::error::Error;
use vstd::prelude::*;

verus! {

/// What is known of one node of the network.
#[derive(Debug)]
pub struct Node {
    id: u8,
    generic_type: GenericType,
    types: Vec<GenericType>,
    cmds: Vec<CommandClass>,
}

/// What a [`Node`] holds: the model that the contracts speak of.
#[verifier::ext_equal]
pub struct NodeView {
    /// The id of the node in the network.
    pub id: u8,
    /// The generic type that the controller last gave for the node.
    pub generic_type: GenericType,
    /// The generic types that the node last gave for itself.
    pub types: Seq<GenericType>,
    /// The Command Classes that the node last gave as supported.
    pub cmds: Seq<CommandClass>,
}

impl View for Node {
    type V = NodeView;

    closed spec fn view(&self) -> NodeView {
        NodeView {
            id: self.id,
            generic_type: self.generic_type,
            types: self.types@,
            cmds: self.cmds@,
        }
    }
}

impl Clone for Node {
    fn clone(&self) -> (copy: Node)
        ensures
            copy@ == self@,
    {
        let copy = Node {
            id: self.id,
            generic_type: self.generic_type,
            types: self.types.clone(),
            cmds: self.cmds.clone(),
        };
        assert(copy@ =~= self@);
        copy
    }
}

/// The node `id` of which nothing else is known: its generic type is `Unknown`,
/// and it has given no types and no Command Classes.
pub open spec fn unknown_node(id: u8) -> NodeView {
    NodeView { id, generic_type: GenericType::Unknown, types: Seq::empty(), cmds: Seq::empty() }
}

/// Whether `node` holds the node information of the report `msg`.
pub open spec fn has_info_of(node: NodeView, msg: Seq<u8>) -> bool {
    node_info_of(msg) == Some((node.types, node.cmds))
}

/// Whether `node` is the node `id` as it is when it was just found: its generic
/// type is not yet asked for, and it holds the node information of some
/// report, or none at all where the node gave none.
pub open spec fn is_newly_found(node: NodeView, id: u8) -> bool {
    ||| node == unknown_node(id)
    ||| exists|msg: Seq<u8>|
        node == (NodeView { types: node.types, cmds: node.cmds, ..unknown_node(id) })
            && #[trigger] has_info_of(node, msg)
}

impl Node {
    /// Creates the node `id` of which nothing else is known.
    pub fn unknown(id: u8) -> (node: Node)
        ensures
            node@ == unknown_node(id),
    {
        let node = Node {
            id,
            generic_type: GenericType::Unknown,
            types: Vec::new(),
            cmds: Vec::new(),
        };
        assert(node@ =~= unknown_node(id));
        node
    }

    /// Creates the node `id` and asks it for its node information. Where that
    /// fails, nothing else is known of the node.
    pub fn new<D: Driver>(driver: &mut D, id: u8) -> (node: Node)
        ensures
            is_newly_found(node@, id),
    {
        let mut node = Node::unknown(id);
        let _ = node.update_node_info(driver);
        node
    }

    /// Takes the node information `types` and `cmds` as what the node gave.
    pub fn set_info(&mut self, types: Vec<GenericType>, cmds: Vec<CommandClass>)
        ensures
            final(self)@ == (NodeView { types: types@, cmds: cmds@, ..old(self)@ }),
    {
        self.types = types;
        self.cmds = cmds;
        assert(self@ =~= (NodeView { types: types@, cmds: cmds@, ..old(self)@ }));
    }

    /// Takes `generic_type` as what the controller gave for the node; a failure
    /// of the controller leaves the type `Unknown`.
    pub fn set_generic_type(&mut self, generic_type: Result<GenericType, Error>)
        ensures
            final(self)@ == (NodeView {
                generic_type: match generic_type {
                    Ok(typ) => typ,
                    Err(_) => GenericType::Unknown,
                },
                ..old(self)@
            }),
    {
        self.generic_type = match generic_type {
            Ok(typ) => typ,
            Err(_) => GenericType::Unknown,
        };
        assert(self@ =~= (NodeView { generic_type: self.generic_type, ..old(self)@ }));
    }

    /// Asks the node for its node information and keeps it. Where that fails,
    /// what is known of the node stays.
    pub fn update_node_info<D: Driver>(&mut self, driver: &mut D) -> (done: Result<(), Error>)
        ensures
            final(self)@.id == old(self)@.id,
            final(self)@.generic_type == old(self)@.generic_type,
            done is Err ==> final(self)@ == old(self)@,
            done is Ok ==> exists|msg: Seq<u8>| #[trigger] has_info_of(final(self)@, msg),
    {
        let (types, cmds) = self.node_info_get(driver)?;
        self.set_info(types, cmds);
        proof {
            let msg = choose|msg: Seq<u8>| #[trigger] node_info_of(msg) == Some((types@, cmds@));
            assert(has_info_of(self@, msg));
        }
        Ok(())
    }

    /// Asks the controller for the generic type of the node and keeps it. Where
    /// that fails, the type is `Unknown`.
    pub fn discover_type<D: Driver>(&mut self, driver: &mut D)
        ensures
            final(self)@.id == old(self)@.id,
            final(self)@.types == old(self)@.types,
            final(self)@.cmds == old(self)@.cmds,
    {
        let generic_type = driver.get_node_generic_class(self.id);
        self.set_generic_type(generic_type);
    }

    /// Returns the id of the node in the network.
    pub fn get_id(&self) -> (id: u8)
        ensures
            id == self@.id,
    {
        self.id
    }

    /// Returns the generic type that the controller last gave for the node.
    pub fn get_generic_type(&self) -> (generic_type: GenericType)
        ensures
            generic_type == self@.generic_type,
    {
        self.generic_type
    }

    /// Returns the Command Classes that the node last gave as supported.
    pub fn get_commands(&self) -> (cmds: Vec<CommandClass>)
        ensures
            cmds@ == self@.cmds,
    {
        self.cmds.clone()
    }

    /// Builds the command that asks the node for its node information.
    pub fn node_info_get_command(&self) -> (bytes: Vec<u8>)
        ensures
            bytes@ == message_bytes(
                command(self@.id, CommandClass::REQUEST_NODE_INFO, 0x02, Seq::empty()),
            ),
    {
        NodeInfo::get(self.id).to_vec()
    }

    /// Asks the node for its node information: its generic types and the
    /// Command Classes that it supports.
    ///
    /// The driver is handed the command of `node_info_get_command`, and what it
    /// reads after that is read as a node information report.
    pub fn node_info_get<D: Driver>(&self, driver: &mut D) -> (info: Result<
        (Vec<GenericType>, Vec<CommandClass>),
        Error,
    >)
        ensures
            info matches Ok((types, cmds)) ==> exists|msg: Seq<u8>| #[trigger]
                node_info_of(msg) == Some((types@, cmds@)),
    {
        driver.write(self.node_info_get_command())?;
        let msg = driver.read()?;
        NodeInfo::report(msg)
    }

    /// Builds the command that sets the basic value of the node to `value`.
    pub fn basic_set_command(&self, value: u8) -> (bytes: Vec<u8>)
        ensures
            bytes@ == message_bytes(command(self@.id, CommandClass::BASIC, 0x01, seq![value])),
    {
        Basic::set(self.id, value).to_vec()
    }

    /// Sets the basic value of the node: hands the command of
    /// `basic_set_command` to the driver and returns what the driver returns,
    /// the id that the command was sent under.
    pub fn basic_set<D: Driver>(&self, driver: &mut D, value: u8) -> Result<u8, Error> {
        driver.write(self.basic_set_command(value))
    }

    /// Builds the command that asks the node for its basic value.
    pub fn basic_get_command(&self) -> (bytes: Vec<u8>)
        ensures
            bytes@ == message_bytes(command(self@.id, CommandClass::BASIC, 0x02, Seq::empty())),
    {
        Basic::get(self.id).to_vec()
    }

    /// Asks the node for its basic value: hands the command of
    /// `basic_get_command` to the driver, and reads what the driver reads after
    /// that as a Basic report.
    pub fn basic_get<D: Driver>(&self, driver: &mut D) -> Result<u8, Error> {
        driver.write(self.basic_get_command())?;
        let msg = driver.read()?;
        Basic::report(msg)
    }

    /// Builds the command that switches the node on or off.
    pub fn switch_binary_set_command(&self, value: bool) -> (bytes: Vec<u8>)
        ensures
            bytes@ == message_bytes(
                command(self@.id, CommandClass::SWITCH_BINARY, 0x01, seq![switch_byte(value)]),
            ),
    {
        SwitchBinary::set(self.id, value).to_vec()
    }

    /// Switches the node on or off: hands the command of
    /// `switch_binary_set_command` to the driver and returns what the driver
    /// returns, the id that the command was sent under.
    pub fn switch_binary_set<D: Driver>(&self, driver: &mut D, value: bool) -> Result<u8, Error> {
        driver.write(self.switch_binary_set_command(value))
    }

    /// Builds the command that asks the node whether it is on.
    pub fn switch_binary_get_command(&self) -> (bytes: Vec<u8>)
        ensures
            bytes@ == message_bytes(
                command(self@.id, CommandClass::SWITCH_BINARY, 0x02, Seq::empty()),
            ),
    {
        SwitchBinary::get(self.id).to_vec()
    }

    /// Asks the node whether it is on: hands the command of
    /// `switch_binary_get_command` to the driver, and reads what the driver
    /// reads after that as a Binary Switch report.
    pub fn switch_binary_get<D: Driver>(&self, driver: &mut D) -> Result<bool, Error> {
        driver.write(self.switch_binary_get_command())?;
        let msg = driver.read()?;
        SwitchBinary::report(msg)
    }

    /// Builds the command that sets the transmit power of the node to `status`
    /// for `seconds` seconds.
    pub fn powerlevel_set_command(&self, status: PowerLevelStatus, seconds: u8) -> (bytes: Vec<u8>)
        ensures
            bytes@ == message_bytes(
                command(
                    self@.id,
                    CommandClass::POWER_LEVEL,
                    0x01,
                    seq![status.as_byte(), seconds],
                ),
            ),
    {
        PowerLevel::set(self.id, status, seconds).to_vec()
    }

    /// Sets the transmit power of the node to `status` for `seconds` seconds:
    /// hands the command of `powerlevel_set_command` to the driver and returns
    /// what the driver returns, the id that the command was sent under.
    pub fn powerlevel_set<D: Driver>(
        &self,
        driver: &mut D,
        status: PowerLevelStatus,
        seconds: u8,
    ) -> Result<u8, Error> {
        driver.write(self.powerlevel_set_command(status, seconds))
    }

    /// Builds the command that asks the node for its transmit power.
    pub fn powerlevel_get_command(&self) -> (bytes: Vec<u8>)
        ensures
            bytes@ == message_bytes(
                command(self@.id, CommandClass::POWER_LEVEL, 0x02, Seq::empty()),
            ),
    {
        PowerLevel::get(self.id).to_vec()
    }

    /// Asks the node for its transmit power and the seconds left at it: hands
    /// the command of `powerlevel_get_command` to the driver, and reads what the
    /// driver reads after that as a Powerlevel report.
    pub fn powerlevel_get<D: Driver>(&self, driver: &mut D) -> Result<
        (PowerLevelStatus, u8),
        Error,
    > {
        driver.write(self.powerlevel_get_command())?;
        let msg = driver.read()?;
        PowerLevel::report(msg)
    }

    /// Builds the command that has the node send `test_frames` test frames to
    /// the node `test_node_id` at the power `level`.
    pub fn powerlevel_test_node_set_command(
        &self,
        test_node_id: u8,
        level: PowerLevelStatus,
        test_frames: u16,
    ) -> (bytes: Vec<u8>)
        ensures
            bytes@ == message_bytes(
                command(
                    self@.id,
                    CommandClass::POWER_LEVEL,
                    0x04,
                    seq![test_node_id, level.as_byte()] + split_bytes(test_frames),
                ),
            ),
    {
        PowerLevel::test_node_set(self.id, test_node_id, level, test_frames).to_vec()
    }

    /// Has the node send `test_frames` test frames to the node `test_node_id`
    /// at the power `level`: hands the command of
    /// `powerlevel_test_node_set_command` to the driver and returns what the
    /// driver returns, the id that the command was sent under.
    pub fn powerlevel_test_node_set<D: Driver>(
        &self,
        driver: &mut D,
        test_node_id: u8,
        level: PowerLevelStatus,
        test_frames: u16,
    ) -> Result<u8, Error> {
        driver.write(self.powerlevel_test_node_set_command(test_node_id, level, test_frames))
    }

    /// Builds the command that asks the node for the result of its last test.
    pub fn powerlevel_test_node_get_command(&self) -> (bytes: Vec<u8>)
        ensures
            bytes@ == message_bytes(
                command(self@.id, CommandClass::POWER_LEVEL, 0x05, Seq::empty()),
            ),
    {
        PowerLevel::test_node_get(self.id).to_vec()
    }

    /// Asks the node for the result of its last test: the node that was tested
    /// against, how the test went, and the number of acknowledged test frames.
    /// Hands the command of `powerlevel_test_node_get_command` to the driver,
    /// and reads what the driver reads after that as a Powerlevel test node
    /// report.
    pub fn powerlevel_test_node_get<D: Driver>(&self, driver: &mut D) -> Result<
        (u8, PowerLevelOperationStatus, u16),
        Error,
    > {
        driver.write(self.powerlevel_test_node_get_command())?;
        let msg = driver.read()?;
        PowerLevel::test_node_report(msg)
    }

    /// Builds the command that asks the node for its meter reading.
    pub fn meter_get_command(&self) -> (bytes: Vec<u8>)
        ensures
            bytes@ == message_bytes(command(self@.id, CommandClass::METER, 0x01, Seq::empty())),
    {
        Meter::get(self.id).to_vec()
    }

    /// Asks the node for its meter reading: hands the command of
    /// `meter_get_command` to the driver, and reads what the driver reads after
    /// that as a Meter report of the first version.
    pub fn meter_get<D: Driver>(&self, driver: &mut D) -> (reading: Result<MeterData, Error>)
        ensures
            reading matches Ok(data) ==> exists|msg: Seq<u8>| #[trigger] is_reading_of(msg, data),
    {
        driver.write(self.meter_get_command())?;
        let msg = driver.read()?;
        Meter::report(msg)
    }

    /// Builds the command that asks the node for its meter reading in the unit
    /// of `meter_type`.
    pub fn meter_get_v2_command(&self, meter_type: MeterData) -> (bytes: Vec<u8>)
        ensures
            bytes@ == message_bytes(
                command(
                    self@.id,
                    CommandClass::METER,
                    0x01,
                    seq![(meter_type.get_scale() * 8) as u8],
                ),
            ),
    {
        Meter::get_v2(self.id, meter_type).to_vec()
    }

    /// Asks the node for its meter reading in the unit of `meter_type`: the
    /// reading before this one, the seconds between the two, and this reading.
    /// Hands the command of `meter_get_v2_command` to the driver, and reads
    /// what the driver reads after that as a Meter report of the second
    /// version.
    pub fn meter_get_v2<D: Driver>(&self, driver: &mut D, meter_type: MeterData) -> (readings:
        Result<(MeterData, u16, MeterData), Error>)
        ensures
            readings matches Ok((previous, delta_time, current)) ==> exists|msg: Seq<u8>| #[trigger]
                are_readings_of(msg, previous, delta_time, current),
    {
        driver.write(self.meter_get_v2_command(meter_type))?;
        let msg = driver.read()?;
        Meter::report_v2(msg)
    }
}

/// The controller of a Z-Wave network behind the driver `D`.
pub struct Controller<D: Driver> {
    driver: D,
    nodes: Vec<Node>,
}

impl<D: Driver> Controller<D> {
    /// The nodes that the controller knows, in the order in which they were
    /// found.
    pub closed spec fn node_views(&self) -> Seq<NodeView> {
        self.nodes@.map_values(|node: Node| node@)
    }

    /// The ids of the nodes that the controller knows, in the order in which
    /// they were found.
    pub open spec fn node_ids(&self) -> Seq<u8> {
        self.node_views().map_values(|node: NodeView| node.id)
    }

    /// The driver that the controller owns.
    pub closed spec fn driver_view(&self) -> D {
        self.driver
    }

    /// Whether every node that the controller knows is as it is when it was
    /// just found.
    pub open spec fn all_newly_found(&self) -> bool {
        forall|i: int|
            0 <= i < self.node_views().len() ==> is_newly_found(
                #[trigger] self.node_views()[i],
                self.node_views()[i].id,
            )
    }

    /// Creates the controller of the network behind `driver` and finds its
    /// nodes. Fails where the driver cannot give the ids of the nodes.
    pub fn new(driver: D) -> (controller: Result<Controller<D>, Error>)
        ensures
            controller matches Ok(found) ==> found.all_newly_found(),
    {
        let mut controller = Controller { driver, nodes: Vec::new() };
        controller.discover_nodes()?;
        Ok(controller)
    }

    /// Forgets the nodes and finds those that are in the network now. Where the
    /// driver cannot give their ids, no node is known afterwards.
    pub fn discover_nodes(&mut self) -> (done: Result<(), Error>)
        ensures
            done is Err ==> final(self).node_views().len() == 0,
            done is Ok ==> final(self).all_newly_found(),
    {
        self.nodes.clear();
        let ids = self.driver.get_node_ids()?;
        self.set_nodes(ids);
        Ok(())
    }

    /// Forgets the nodes and takes the nodes `ids` in their place. Each of them
    /// is asked for its node information; of a node that does not give it,
    /// nothing but its id is known.
    pub fn set_nodes(&mut self, ids: Vec<u8>)
        ensures
            final(self).node_ids() == ids@,
            final(self).all_newly_found(),
    {
        self.nodes.clear();
        let mut i: usize = 0;
        while i < ids.len()
            invariant
                i <= ids.len(),
                self.node_ids() == ids@.take(i as int),
                self.all_newly_found(),
            decreases ids.len() - i,
        {
            let ghost before = self.node_views();
            let node = Node::new(&mut self.driver, ids[i]);
            assert(self.node_views() == before);
            self.nodes.push(node);
            assert(self.node_views() =~= before.push(node@));
            assert(self.node_ids() =~= before.map_values(|node: NodeView| node.id).push(ids[i as int]));
            assert(ids@.take(i + 1) =~= ids@.take(i as int).push(ids[i as int]));
            i = i + 1;
        }
        assert(ids@.take(i as int) == ids@);
    }

    /// Returns what is known of the node `id`: of the first node of that id.
    pub fn node(&self, id: u8) -> (node: Option<Node>)
        ensures
            match node {
                Some(node) => exists|i: int|
                    0 <= i < self.node_views().len() && #[trigger] self.node_views()[i] == node@
                        && node@.id == id && forall|j: int|
                        0 <= j < i ==> (#[trigger] self.node_views()[j]).id != id,
                None => forall|i: int|
                    0 <= i < self.node_views().len() ==> (#[trigger] self.node_views()[i]).id
                        != id,
            },
    {
        let mut i: usize = 0;
        while i < self.nodes.len()
            invariant
                i <= self.nodes.len(),
                forall|j: int| 0 <= j < i ==> (#[trigger] self.node_views()[j]).id != id,
            decreases self.nodes.len() - i,
        {
            if id == self.nodes[i].get_id() {
                let node = self.nodes[i].clone();
                assert(self.node_views()[i as int] == node@);
                return Some(node);
            }
            i = i + 1;
        }
        None
    }

    /// Returns the ids of the nodes that the controller knows.
    pub fn nodes(&self) -> (ids: Vec<u8>)
        ensures
            ids@ == self.node_ids(),
    {
        let mut ids: Vec<u8> = Vec::new();
        let mut i: usize = 0;
        while i < self.nodes.len()
            invariant
                i <= self.nodes.len(),
                ids@ == self.node_ids().take(i as int),
            decreases self.nodes.len() - i,
        {
            ids.push(self.nodes[i].get_id());
            i = i + 1;
            assert(ids@ =~= self.node_ids().take(i as int));
        }
        assert(self.node_ids().take(i as int) == self.node_ids());
        ids
    }

    /// Returns a copy of what is known of every node.
    pub fn get_nodes(&self) -> (nodes: Vec<Node>)
        ensures
            nodes@.map_values(|node: Node| node@) == self.node_views(),
    {
        let nodes = self.nodes.clone();
        assert(nodes@.map_values(|node: Node| node@) =~= self.node_views());
        nodes
    }

    /// Returns the driver that the controller owns, for the operations of a
    /// node. What is done to the driver through it is done to the driver of the
    /// controller; the nodes stay.
    pub fn get_driver(&mut self) -> (driver: &mut D)
        ensures
            *driver == old(self).driver_view(),
            final(self).driver_view() == *final(driver),
            final(self).node_views() == old(self).node_views(),
    {
        &mut self.driver
    }
}

} // verus!
