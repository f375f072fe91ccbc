# imu_sensors

Drivers for inertial measurement units (ICM-20602, LSM6DS family, MPU-6050/6000,
MPU-6886, QMI8658A, and a simulated device), split in two:

- `src/` is the verified library. For each driver it holds the register tables,
  the choice of full-scale range and output data rate for a request, the exact
  scale factor (as a rational number of units per count), the initialisation
  sequence as a step function, and where samples lie in a read. It also holds the
  axis orders with their signed-permutation or rotation maps, the in-memory
  register file used in tests, and the SPI transfer planning. Proof functions
  state the laws: the inverse of an axis order undoes its map, chosen rates round
  a target up to the next offered rate, a full initialisation configures both
  sensors, and what is written to the register file is read back.
- `app/` holds what needs async buses, timers or floating point: the `ImuBus`
  and `Imu` traits, the bus implementations, scaling of raw samples, applying axis
  maps to `f32` vectors, and serialisable copies of the configuration types.
