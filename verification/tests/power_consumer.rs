use airbus_systems::electrical::consumption::PowerConsumer;
use airbus_systems::electrical::power_supply::SuppliedPower;
use airbus_systems::electrical::{ElectricalBus, ElectricalBusType, Potential, PotentialOrigin};
use uom::si::{f64::Power, power::watt};

fn apu_potential() -> Potential<f64> {
    Potential::single(PotentialOrigin::ApuGenerator(1), 115.)
}

fn powered_bus(bus_type: ElectricalBusType) -> ElectricalBus<f64> {
    let mut bus = ElectricalBus::new(bus_type);
    bus.powered_by(&apu_potential());

    bus
}

fn no_demand() -> Power {
    Power::new::<watt>(0.)
}

fn powered_consumer() -> PowerConsumer<f64, Power> {
    let mut consumer = PowerConsumer::from(ElectricalBusType::AlternatingCurrent(1), no_demand());
    let mut supplied_power = SuppliedPower::new();
    supplied_power.add(&powered_bus(ElectricalBusType::AlternatingCurrent(1)));
    consumer.receive_power(&supplied_power);

    consumer
}

#[test]
fn is_powered_returns_false_when_not_powered() {
    let consumer =
        PowerConsumer::<f64, Power>::from(ElectricalBusType::AlternatingCurrent(1), no_demand());
    assert!(!consumer.is_powered());
}

#[test]
fn is_powered_returns_false_when_powered_by_bus_which_is_not_powered() {
    let mut supplied_power = SuppliedPower::new();
    supplied_power.add(&powered_bus(ElectricalBusType::AlternatingCurrent(2)));

    let mut consumer = PowerConsumer::from(ElectricalBusType::AlternatingCurrent(1), no_demand());
    consumer.receive_power(&supplied_power);

    assert!(!consumer.is_powered());
}

#[test]
fn is_powered_returns_true_when_powered_by_bus_which_is_powered() {
    let mut supplied_power = SuppliedPower::new();
    supplied_power.add(&powered_bus(ElectricalBusType::AlternatingCurrent(2)));
    supplied_power.add(&powered_bus(ElectricalBusType::AlternatingCurrent(1)));

    let mut consumption =
        PowerConsumer::from(ElectricalBusType::AlternatingCurrent(1), no_demand());
    consumption.receive_power(&supplied_power);

    assert!(consumption.is_powered());
}

#[test]
fn consume_power_adds_power_consumption_when_powered() {
    let mut consumer = powered_consumer();
    let expected = Power::new::<watt>(100.);

    consumer.demand(expected);
    let consumption = consumer.consume_power();

    match consumption {
        Some((potential, power)) => {
            assert!(potential.is_single(PotentialOrigin::ApuGenerator(1)));
            assert_eq!(power, expected);
        }
        None => panic!("a powered consumer consumes power"),
    }
}

#[test]
fn consume_power_does_not_add_power_consumption_when_unpowered() {
    let mut consumer =
        PowerConsumer::<f64, Power>::from(ElectricalBusType::AlternatingCurrent(1), no_demand());

    consumer.demand(Power::new::<watt>(100.));

    assert!(consumer.consume_power().is_none());
}

#[test]
fn consumer_takes_the_potential_of_the_bus_it_is_fed_by() {
    let mut supplied_power = SuppliedPower::new();
    supplied_power.insert(
        ElectricalBusType::DirectCurrent(1),
        Potential::single(PotentialOrigin::TransformerRectifier(1), 28.),
    );
    supplied_power.insert(
        ElectricalBusType::DirectCurrent(2),
        Potential::single(PotentialOrigin::TransformerRectifier(2), 28.),
    );

    let mut consumer = PowerConsumer::from(ElectricalBusType::DirectCurrent(2), 5_u32);
    consumer.receive_power(&supplied_power);

    match consumer.consume_power() {
        Some((potential, demand)) => {
            assert!(potential.is_single(PotentialOrigin::TransformerRectifier(2)));
            assert_eq!(demand, 5);
        }
        None => panic!("the consumer is fed by a powered bus"),
    }
}

#[test]
fn consumer_loses_power_when_its_bus_is_no_longer_powered() {
    let mut consumer = powered_consumer();
    assert!(consumer.is_powered());

    consumer.receive_power(&SuppliedPower::new());

    assert!(!consumer.is_powered());
    assert!(consumer.consume_power().is_none());
}
